use precompiled_shaders::command_handling::{
    Command, CommandWithEntity, Entity, EntityCommand, EntityCommandError, EntityMutableFetchError,
    EntityWorldMut, Environment, ErrorContext, HandleError, WithEntity, World,
};
use std::cell::RefCell;
use std::mem::size_of;
use std::rc::Rc;

struct Game;

struct Message(String);

type Log = Rc<RefCell<Vec<String>>>;

impl Environment for Game {
    type Data = u32;
    type Error = Message;
    type ErrorHandler = Box<dyn Fn(Message, ErrorContext)>;

    fn command_name<C>() -> String {
        format!("command of {} bytes", size_of::<C>())
    }
}

fn logging(log: &Log, prefix: &'static str) -> Box<dyn Fn(Message, ErrorContext)> {
    let log = log.clone();
    Box::new(move |error, context| {
        let ErrorContext::Command { name } = context;
        log.borrow_mut().push(format!("{prefix} {name}: {}", error.0));
    })
}

fn world(log: &Log) -> World<Game> {
    World { entities: vec![], data: 0, default_error_handler: logging(log, "default") }
}

struct TooLarge(u32);

impl From<TooLarge> for Message {
    fn from(error: TooLarge) -> Message {
        Message(format!("{} is too large", error.0))
    }
}

impl From<&'static str> for Message {
    fn from(error: &'static str) -> Message {
        Message(error.to_string())
    }
}

/// Writes to the world, then fails where the value is large.
struct Store(u32);

impl Command<Game, Result<u8, TooLarge>> for Store {
    fn apply(self, world: &mut World<Game>) -> Result<u8, TooLarge> {
        world.data = self.0;
        if self.0 > 10 {
            Err(TooLarge(self.0))
        } else {
            Ok(1)
        }
    }
}

/// Replaces the default handler and fails.
struct Replace(Log);

impl Command<Game, Result<(), &'static str>> for Replace {
    fn apply(self, world: &mut World<Game>) -> Result<(), &'static str> {
        world.default_error_handler = logging(&self.0, "replaced");
        Err("failed")
    }
}

struct Clear;

impl Command<Game> for Clear {
    fn apply(self, world: &mut World<Game>) {
        world.data = 0;
    }
}

struct Tag;

impl EntityCommand<Game> for Tag {
    fn apply(self, entity: EntityWorldMut<'_, Game>) {
        entity.world.data = entity.entity.index;
    }
}

struct Check(u32);

impl EntityCommand<Game, Result<u32, TooLarge>> for Check {
    fn apply(self, entity: EntityWorldMut<'_, Game>) -> Result<u32, TooLarge> {
        entity.world.data += 1;
        if self.0 > 10 {
            Err(TooLarge(self.0))
        } else {
            Ok(self.0)
        }
    }
}

impl From<EntityCommandError<TooLarge>> for Message {
    fn from(error: EntityCommandError<TooLarge>) -> Message {
        match error {
            EntityCommandError::EntityFetchError(EntityMutableFetchError::NotSpawned(e)) => {
                Message(format!("no entity {}v{}", e.index, e.generation))
            }
            EntityCommandError::CommandFailed(error) => error.into(),
        }
    }
}

const ENTITY: Entity = Entity { index: 4, generation: 1 };

#[test]
fn given_handler_gets_error_and_name() {
    let log = Log::default();
    let mut w = world(&log);
    Store(11).handle_error_with(Some(logging(&log, "given"))).apply(&mut w);
    assert_eq!(*log.borrow(), vec!["given command of 4 bytes: 11 is too large"]);
    assert_eq!(w.data, 11);
}

#[test]
fn success_calls_no_handler() {
    let log = Log::default();
    let mut w = world(&log);
    Store(3).handle_error_with(Some(logging(&log, "given"))).apply(&mut w);
    Store(4).handle_error().apply(&mut w);
    assert!(log.borrow().is_empty());
    assert_eq!(w.data, 4);
}

#[test]
fn without_handler_the_error_is_ignored() {
    let log = Log::default();
    let mut w = world(&log);
    Store(12).handle_error_with(None).apply(&mut w);
    assert!(log.borrow().is_empty());
    assert_eq!(w.data, 12);
}

#[test]
fn default_handler_gets_error_and_name() {
    let log = Log::default();
    let mut w = world(&log);
    Store(13).handle_error().apply(&mut w);
    assert_eq!(*log.borrow(), vec!["default command of 4 bytes: 13 is too large"]);
}

#[test]
fn default_handler_is_the_one_after_the_command() {
    let log = Log::default();
    let mut w = world(&log);
    Replace(log.clone()).handle_error().apply(&mut w);
    let name = Game::command_name::<Replace>();
    assert_eq!(*log.borrow(), vec![format!("replaced {name}: failed")]);
}

#[test]
fn commands_without_result_stay_what_they_are() {
    let log = Log::default();
    let mut w = world(&log);
    w.data = 9;
    let clear: Clear = Clear.handle_error_with(Some(logging(&log, "given")));
    clear.apply(&mut w);
    assert_eq!(w.data, 0);
    let _clear: Clear = Clear.handle_error();
    assert!(log.borrow().is_empty());
}

#[test]
fn entity_commands_run_on_spawned_entities() {
    let log = Log::default();
    let mut w = world(&log);
    w.entities.push(Entity { index: 4, generation: 0 });
    w.entities.push(ENTITY);
    let r: Result<(), EntityMutableFetchError> = Tag.with_entity(ENTITY).apply(&mut w);
    assert_eq!(r, Ok(()));
    assert_eq!(w.data, 4);
}

#[test]
fn entity_commands_fail_on_missing_entities() {
    let log = Log::default();
    let mut w = world(&log);
    w.entities.push(Entity { index: 4, generation: 0 });
    let r: Result<(), EntityMutableFetchError> = Tag.with_entity(ENTITY).apply(&mut w);
    assert_eq!(r, Err(EntityMutableFetchError::NotSpawned(ENTITY)));
    assert_eq!(w.data, 0);
}

#[test]
fn results_of_entity_commands_are_passed_on() {
    let log = Log::default();
    let mut w = world(&log);
    let r: Result<u32, EntityCommandError<TooLarge>> = Check(1).with_entity(ENTITY).apply(&mut w);
    assert!(matches!(
        r,
        Err(EntityCommandError::EntityFetchError(EntityMutableFetchError::NotSpawned(ENTITY)))
    ));
    assert_eq!(w.data, 0);
    w.entities.push(ENTITY);
    let r: Result<u32, EntityCommandError<TooLarge>> = Check(2).with_entity(ENTITY).apply(&mut w);
    assert!(matches!(r, Ok(2)));
    let r: Result<u32, EntityCommandError<TooLarge>> = Check(20).with_entity(ENTITY).apply(&mut w);
    assert!(matches!(r, Err(EntityCommandError::CommandFailed(TooLarge(20)))));
    assert_eq!(w.data, 2);
}

#[test]
fn entity_commands_can_be_handled() {
    let log = Log::default();
    let mut w = world(&log);
    HandleError::<Game, Result<u32, EntityCommandError<TooLarge>>>::handle_error(
        Check(1).with_entity(ENTITY),
    )
    .apply(&mut w);
    assert_eq!(size_of::<WithEntity<Check>>(), 12);
    assert_eq!(*log.borrow(), vec!["default command of 12 bytes: no entity 4v1"]);
}

#[test]
fn get_entity_mut_finds_spawned_entities_only() {
    let log = Log::default();
    let mut w = world(&log);
    assert!(matches!(
        w.get_entity_mut(ENTITY),
        Err(EntityMutableFetchError::NotSpawned(ENTITY))
    ));
    w.entities.push(ENTITY);
    match w.get_entity_mut(ENTITY) {
        Ok(found) => {
            assert_eq!(found.entity, ENTITY);
            found.world.data = 6;
        }
        Err(_) => panic!("the entity is spawned"),
    }
    assert_eq!(w.data, 6);
}
