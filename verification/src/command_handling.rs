//! Commands that act on a world, and adaptors that deal with their errors.
//!
//! A command may fail. [`HandleError`] turns a failing command into one that
//! hands its error to an error handler and returns nothing;
//! [`CommandWithEntity`] turns a command on an entity into a command on the
//! world.

use core::convert::Infallible;
use core::marker::PhantomData;
use vstd::prelude::*;

verus! {

/// Identifies an entity. An index is reused with a new generation.
#[derive(Clone, Copy, PartialEq, Eq, Structural, Debug)]
pub struct Entity {
    pub index: u32,
    pub generation: u32,
}

/// What an application fixes of its world.
pub trait Environment: Sized {
    /// What the world holds besides its entities.
    type Data;

    /// What error handlers take errors as.
    type Error;

    /// Error handlers.
    type ErrorHandler: Fn(Self::Error, ErrorContext);

    /// The name that error contexts show for commands of the type `C`. Nothing is
    /// assumed of it.
    fn command_name<C>() -> String;
}

/// The world that commands act on: the entities spawned in it, the data it
/// holds, and the handler for errors that nothing else handles.
pub struct World<A: Environment> {
    pub entities: Vec<Entity>,
    pub data: A::Data,
    pub default_error_handler: A::ErrorHandler,
}

/// A world together with an entity that is spawned in it.
pub struct EntityWorldMut<'w, A: Environment> {
    pub world: &'w mut World<A>,
    pub entity: Entity,
}

/// Why an entity could not be fetched.
#[derive(Clone, Copy, PartialEq, Eq, Structural, Debug)]
pub enum EntityMutableFetchError {
    /// The entity is not spawned.
    NotSpawned(Entity),
}

/// Why a command on an entity failed.
pub enum EntityCommandError<Error> {
    /// The entity could not be fetched.
    EntityFetchError(EntityMutableFetchError),
    /// The command itself failed.
    CommandFailed(Error),
}

/// Where an error comes from.
pub enum ErrorContext {
    /// From the command with this name.
    Command { name: String },
}

/// The output of a command that never returns.
pub type Never = Infallible;

impl ErrorContext {
    /// Whether this context is the command with this name.
    pub open spec fn is_command(self, command: Seq<char>) -> bool {
        self matches ErrorContext::Command { name } && name@ == command
    }
}

impl<A: Environment> World<A> {
    /// Whether an entity is spawned.
    pub open spec fn spawned(&self, entity: Entity) -> bool {
        self.entities@.contains(entity)
    }

    /// The world together with `entity`, where that is spawned.
    pub fn get_entity_mut(&mut self, entity: Entity) -> (r: Result<
        EntityWorldMut<'_, A>,
        EntityMutableFetchError,
    >)
        ensures
            match r {
                Ok(found) => {
                    &&& old(self).spawned(entity)
                    &&& found.entity == entity
                    &&& *found.world == *old(self)
                    &&& *final(self) == *final(found.world)
                },
                Err(error) => {
                    &&& !old(self).spawned(entity)
                    &&& error == EntityMutableFetchError::NotSpawned(entity)
                    &&& *final(self) == *old(self)
                },
            },
    {
        let mut i: usize = 0;
        while i < self.entities.len()
            invariant
                *self == *old(self),
                forall|j: int| 0 <= j < i ==> self.entities@[j] != entity,
            decreases self.entities.len() - i,
        {
            if self.entities[i] == entity {
                return Ok(EntityWorldMut { world: self, entity });
            }
            i += 1;
        }
        Err(EntityMutableFetchError::NotSpawned(entity))
    }
}

/// A change to a world, which may have an output.
pub trait Command<A: Environment, Out = ()>: Sized {
    /// Whether the command may be applied to this world.
    open spec fn applicable(&self, world: World<A>) -> bool {
        true
    }

    /// Whether applying the command may turn `before` into `after` with this
    /// output. A command that does not say so may do anything.
    open spec fn applied(&self, before: World<A>, after: World<A>, out: Out) -> bool {
        true
    }

    /// Applies the command.
    fn apply(self, world: &mut World<A>) -> (out: Out)
        requires
            self.applicable(*old(world)),
        ensures
            self.applied(*old(world), *final(world), out),
    ;
}

/// A change to an entity, which may have an output.
pub trait EntityCommand<A: Environment, Out = ()>: Sized {
    /// Whether the command may be applied to this entity of this world.
    open spec fn applicable(&self, entity: Entity, world: World<A>) -> bool {
        true
    }

    /// Whether applying the command to the entity may turn `before` into `after`
    /// with this output. A command that does not say so may do anything.
    open spec fn applied(
        &self,
        entity: Entity,
        before: World<A>,
        after: World<A>,
        out: Out,
    ) -> bool {
        true
    }

    /// Applies the command.
    fn apply(self, entity: EntityWorldMut<'_, A>) -> (out: Out)
        requires
            entity.world.spawned(entity.entity),
            self.applicable(entity.entity, *entity.world),
        ensures
            self.applied(entity.entity, *old(entity.world), *final(entity.world), out),
    ;
}

/// Whether `handler` may be called with this error of the command `name`.
pub open spec fn may_report<A: Environment, E: Into<A::Error>>(
    handler: A::ErrorHandler,
    error: E,
    name: Seq<char>,
) -> bool {
    forall|converted: A::Error, context: ErrorContext|
        call_ensures(E::into, (error,), converted) && context.is_command(name) ==> #[trigger]
            call_requires(handler, (converted, context))
}

/// Whether `handler` was called with this error of the command `name`.
pub open spec fn reported<A: Environment, E: Into<A::Error>>(
    handler: A::ErrorHandler,
    error: E,
    name: Seq<char>,
) -> bool {
    exists|converted: A::Error, context: ErrorContext|
        call_ensures(E::into, (error,), converted) && context.is_command(name) && #[trigger]
            call_ensures(handler, (converted, context), ())
}

/// Calls `handler` with an error of the command `name`.
pub fn report<A: Environment, E: Into<A::Error>>(handler: &A::ErrorHandler, error: E, name: String)
    requires
        may_report::<A, E>(*handler, error, name@),
    ensures
        reported::<A, E>(*handler, error, name@),
{
    let converted: A::Error = error.into();
    handler(converted, ErrorContext::Command { name });
}

/// Whether `handler` may be called with this error of a command of the type `C`.
pub open spec fn may_report_for<A: Environment, C, E: Into<A::Error>>(
    handler: A::ErrorHandler,
    error: E,
) -> bool {
    forall|name: String| #[trigger]
        call_ensures(A::command_name::<C>, (), name) ==> may_report::<A, E>(handler, error, name@)
}

/// Whether `handler` was called with this error of a command of the type `C`.
pub open spec fn reported_for<A: Environment, C, E: Into<A::Error>>(
    handler: A::ErrorHandler,
    error: E,
) -> bool {
    exists|name: String| #[trigger]
        call_ensures(A::command_name::<C>, (), name) && reported::<A, E>(handler, error, name@)
}

/// Calls `handler` with an error of a command of the type `C`.
pub fn report_for<A: Environment, C, E: Into<A::Error>>(handler: &A::ErrorHandler, error: E)
    requires
        may_report_for::<A, C, E>(*handler, error),
    ensures
        reported_for::<A, C, E>(*handler, error),
{
    let name = A::command_name::<C>();
    report::<A, E>(handler, error, name);
}

/// Takes a [`Command`] that potentially returns a result and uses an error
/// handler to convert it into a [`Command`] that handles an error itself and
/// returns `()`.
pub trait HandleError<A: Environment, Out = ()>: Sized {
    /// The command with a handler of its own.
    type HandledWith: Command<A>;

    /// The command with the world's default handler.
    type Handled: Command<A>;

    /// The command with this handler.
    spec fn handled_with(self, error_handler: Option<A::ErrorHandler>) -> Self::HandledWith;

    /// The command with the world's default handler.
    spec fn handled(self) -> Self::Handled;

    /// Takes a [`Command`] that returns a result and uses a given error handler
    /// to convert it into a [`Command`] that handles an error itself and returns
    /// `()`. If `None` is provided, the error is ignored.
    fn handle_error_with(self, error_handler: Option<A::ErrorHandler>) -> (r: Self::HandledWith)
        ensures
            r == self.handled_with(error_handler),
    ;

    /// Takes a [`Command`] that returns a result and uses the world's default
    /// error handler to convert it into a [`Command`] that handles an error
    /// itself and returns `()`.
    fn handle_error(self) -> (r: Self::Handled)
        ensures
            r == self.handled(),
    ;
}

/// A command whose error goes to `error_handler`, or nowhere.
pub struct HandledWith<C, A: Environment, T, E> {
    pub command: C,
    pub error_handler: Option<A::ErrorHandler>,
    pub output: PhantomData<(A, T, E)>,
}

/// A command whose error goes to the world's default handler.
pub struct Handled<C, A, T, E> {
    pub command: C,
    pub output: PhantomData<(A, T, E)>,
}

/// A command that never returns.
pub struct Diverging<C> {
    pub command: C,
}

impl<A: Environment, T, E, C> Command<A> for HandledWith<C, A, T, E> where
    C: Command<A, Result<T, E>>,
    E: Into<A::Error>,
 {
    open spec fn applicable(&self, world: World<A>) -> bool {
        &&& self.command.applicable(world)
        &&& self.error_handler matches Some(handler) ==> forall|after: World<A>, error: E|
            #[trigger] self.command.applied(world, after, Err::<T, E>(error)) ==> may_report_for::<
                A,
                C,
                E,
            >(handler, error)
    }

    open spec fn applied(&self, before: World<A>, after: World<A>, out: ()) -> bool {
        exists|result: Result<T, E>| #[trigger]
            self.command.applied(before, after, result) && match (self.error_handler, result) {
                (Some(handler), Err(error)) => reported_for::<A, C, E>(handler, error),
                _ => true,
            }
    }

    fn apply(self, world: &mut World<A>) {
        let result = self.command.apply(world);
        if let Some(error_handler) = self.error_handler {
            match result {
                Ok(_) => {},
                Err(err) => report_for::<A, C, E>(&error_handler, err),
            }
        }
    }
}

impl<A: Environment, T, E, C> Command<A> for Handled<C, A, T, E> where
    C: Command<A, Result<T, E>>,
    E: Into<A::Error>,
 {
    open spec fn applicable(&self, world: World<A>) -> bool {
        &&& self.command.applicable(world)
        &&& forall|after: World<A>, error: E| #[trigger]
            self.command.applied(world, after, Err::<T, E>(error)) ==> may_report_for::<A, C, E>(
                after.default_error_handler,
                error,
            )
    }

    open spec fn applied(&self, before: World<A>, after: World<A>, out: ()) -> bool {
        exists|result: Result<T, E>| #[trigger]
            self.command.applied(before, after, result) && match result {
                Err(error) => reported_for::<A, C, E>(after.default_error_handler, error),
                _ => true,
            }
    }

    fn apply(self, world: &mut World<A>) {
        match self.command.apply(world) {
            Ok(_) => {},
            Err(err) => report_for::<A, C, E>(&world.default_error_handler, err),
        }
    }
}

impl<A: Environment, C> Command<A> for Diverging<C> where C: Command<A, Never> {
    open spec fn applicable(&self, world: World<A>) -> bool {
        self.command.applicable(world)
    }

    open spec fn applied(&self, before: World<A>, after: World<A>, out: ()) -> bool {
        exists|never: Never| #[trigger] self.command.applied(before, after, never)
    }

    #[allow(unreachable_code)]
    fn apply(self, world: &mut World<A>) {
        self.command.apply(world);
    }
}

impl<A: Environment, T, E, C> HandleError<A, Result<T, E>> for C where
    C: Command<A, Result<T, E>>,
    E: Into<A::Error>,
 {
    type HandledWith = HandledWith<C, A, T, E>;

    type Handled = Handled<C, A, T, E>;

    open spec fn handled_with(self, error_handler: Option<A::ErrorHandler>) -> Self::HandledWith {
        HandledWith { command: self, error_handler, output: PhantomData }
    }

    open spec fn handled(self) -> Self::Handled {
        Handled { command: self, output: PhantomData }
    }

    fn handle_error_with(self, error_handler: Option<A::ErrorHandler>) -> Self::HandledWith {
        HandledWith { command: self, error_handler, output: PhantomData }
    }

    fn handle_error(self) -> Self::Handled {
        Handled { command: self, output: PhantomData }
    }
}

impl<A: Environment, C> HandleError<A, Never> for C where C: Command<A, Never> {
    type HandledWith = Diverging<C>;

    type Handled = Diverging<C>;

    open spec fn handled_with(self, error_handler: Option<A::ErrorHandler>) -> Self::HandledWith {
        Diverging { command: self }
    }

    open spec fn handled(self) -> Self::Handled {
        Diverging { command: self }
    }

    fn handle_error_with(self, _error_handler: Option<A::ErrorHandler>) -> Self::HandledWith {
        Diverging { command: self }
    }

    fn handle_error(self) -> Self::Handled {
        Diverging { command: self }
    }
}

impl<A: Environment, C> HandleError<A> for C where C: Command<A> {
    type HandledWith = C;

    type Handled = C;

    open spec fn handled_with(self, error_handler: Option<A::ErrorHandler>) -> Self::HandledWith {
        self
    }

    open spec fn handled(self) -> Self::Handled {
        self
    }

    fn handle_error_with(self, _error_handler: Option<A::ErrorHandler>) -> Self::HandledWith {
        self
    }

    fn handle_error(self) -> Self::Handled {
        self
    }
}

/// Passes a specific entity to an [`EntityCommand`], resulting in a [`Command`]
/// that runs the [`EntityCommand`] on that entity, and whose error can be handled
/// in turn (see [`HandleError`]). This is a trait of its own because entity
/// commands with and without a result differ in what becomes of a missing entity.
pub trait CommandWithEntity<A: Environment, Out>: Sized {
    /// The command on the world.
    type WithEntity: Command<A, Out>;

    /// The command on this entity.
    spec fn on_entity(self, entity: Entity) -> Self::WithEntity;

    /// Passes a specific entity to an [`EntityCommand`], resulting in a
    /// [`Command`] that runs the [`EntityCommand`] on that entity.
    fn with_entity(self, entity: Entity) -> (r: Self::WithEntity)
        ensures
            r == self.on_entity(entity),
    ;
}

/// An entity command together with the entity that it runs on.
pub struct WithEntity<C> {
    pub command: C,
    pub entity: Entity,
}

impl<A: Environment, C> Command<A, Result<(), EntityMutableFetchError>> for WithEntity<C> where
    C: EntityCommand<A>,
 {
    open spec fn applicable(&self, world: World<A>) -> bool {
        world.spawned(self.entity) ==> self.command.applicable(self.entity, world)
    }

    open spec fn applied(
        &self,
        before: World<A>,
        after: World<A>,
        out: Result<(), EntityMutableFetchError>,
    ) -> bool {
        if before.spawned(self.entity) {
            out is Ok && self.command.applied(self.entity, before, after, ())
        } else {
            after == before && out == Err::<(), EntityMutableFetchError>(
                EntityMutableFetchError::NotSpawned(self.entity),
            )
        }
    }

    fn apply(self, world: &mut World<A>) -> Result<(), EntityMutableFetchError> {
        match world.get_entity_mut(self.entity) {
            Ok(entity) => {
                self.command.apply(entity);
                Ok(())
            },
            Err(err) => Err(err),
        }
    }
}

impl<A: Environment, C, T, Error> Command<A, Result<T, EntityCommandError<Error>>> for WithEntity<
    C,
> where C: EntityCommand<A, Result<T, Error>> {
    open spec fn applicable(&self, world: World<A>) -> bool {
        world.spawned(self.entity) ==> self.command.applicable(self.entity, world)
    }

    open spec fn applied(
        &self,
        before: World<A>,
        after: World<A>,
        out: Result<T, EntityCommandError<Error>>,
    ) -> bool {
        if before.spawned(self.entity) {
            match out {
                Ok(value) => self.command.applied(self.entity, before, after, Ok(value)),
                Err(EntityCommandError::CommandFailed(error)) => self.command.applied(
                    self.entity,
                    before,
                    after,
                    Err(error),
                ),
                Err(EntityCommandError::EntityFetchError(_)) => false,
            }
        } else {
            after == before && out == Err::<T, EntityCommandError<Error>>(
                EntityCommandError::EntityFetchError(
                    EntityMutableFetchError::NotSpawned(self.entity),
                ),
            )
        }
    }

    fn apply(self, world: &mut World<A>) -> Result<T, EntityCommandError<Error>> {
        match world.get_entity_mut(self.entity) {
            Ok(entity) => match self.command.apply(entity) {
                Ok(value) => Ok(value),
                Err(err) => Err(EntityCommandError::CommandFailed(err)),
            },
            Err(err) => Err(EntityCommandError::EntityFetchError(err)),
        }
    }
}

impl<A: Environment, C> CommandWithEntity<A, Result<(), EntityMutableFetchError>> for C where
    C: EntityCommand<A>,
 {
    type WithEntity = WithEntity<C>;

    open spec fn on_entity(self, entity: Entity) -> Self::WithEntity {
        WithEntity { command: self, entity }
    }

    fn with_entity(self, entity: Entity) -> Self::WithEntity {
        WithEntity { command: self, entity }
    }
}

impl<A: Environment, C, T, Error> CommandWithEntity<
    A,
    Result<T, EntityCommandError<Error>>,
> for C where C: EntityCommand<A, Result<T, Error>> {
    type WithEntity = WithEntity<C>;

    open spec fn on_entity(self, entity: Entity) -> Self::WithEntity {
        WithEntity { command: self, entity }
    }

    fn with_entity(self, entity: Entity) -> Self::WithEntity {
        WithEntity { command: self, entity }
    }
}

/// Handling errors leaves the world to the command: a handled command does to it
/// what the command alone may do.
pub proof fn law_handlers_leave_the_world_alone<A: Environment, T, E, C>(
    command: C,
    error_handler: Option<A::ErrorHandler>,
    before: World<A>,
    after: World<A>,
) where C: Command<A, Result<T, E>>, E: Into<A::Error>
    requires
        ({
            ||| HandleError::<A, Result<T, E>>::handled_with(command, error_handler).applied(
                before,
                after,
                (),
            )
            ||| HandleError::<A, Result<T, E>>::handled(command).applied(before, after, ())
        }),
    ensures
        exists|result: Result<T, E>| #[trigger] command.applied(before, after, result),
{
}

/// Without a handler errors are ignored: the handled command may be applied
/// where the command may, and does to the world exactly what the command does,
/// failing or not.
pub proof fn law_without_a_handler_errors_are_ignored<A: Environment, T, E, C>(
    command: C,
    before: World<A>,
    after: World<A>,
) where C: Command<A, Result<T, E>>, E: Into<A::Error>
    ensures
        HandleError::<A, Result<T, E>>::handled_with(command, None).applicable(before)
            <==> command.applicable(before),
        HandleError::<A, Result<T, E>>::handled_with(command, None).applied(before, after, ())
            <==> exists|result: Result<T, E>| #[trigger] command.applied(before, after, result),
{
    let handled = HandleError::<A, Result<T, E>>::handled_with(command, None);
    assert(handled.error_handler == None::<A::ErrorHandler>);
    if exists|result: Result<T, E>| #[trigger] command.applied(before, after, result) {
        let result = choose|result: Result<T, E>| #[trigger] command.applied(before, after, result);
        assert(handled.command.applied(before, after, result));
    }
}

/// Where a command fails, its handler was called with its error, converted, and
/// with the name of the command's type.
pub proof fn law_a_failure_reaches_the_given_handler<A: Environment, T, E, C>(
    command: C,
    handler: A::ErrorHandler,
    before: World<A>,
    after: World<A>,
) where C: Command<A, Result<T, E>>, E: Into<A::Error>
    requires
        HandleError::<A, Result<T, E>>::handled_with(command, Some(handler)).applied(
            before,
            after,
            (),
        ),
        forall|result: Result<T, E>| #[trigger]
            command.applied(before, after, result) ==> result is Err,
    ensures
        exists|error: E|
            #![trigger command.applied(before, after, Err::<T, E>(error))]
            command.applied(before, after, Err::<T, E>(error)) && reported_for::<A, C, E>(
                handler,
                error,
            ),
{
    let result = choose|result: Result<T, E>| #[trigger]
        command.applied(before, after, result) && match result {
            Err(error) => reported_for::<A, C, E>(handler, error),
            _ => true,
        };
    assert(result == Err::<T, E>(result->Err_0));
}

/// Where a command fails and the default handler is used, that is the handler
/// which the world has after the command, not the one from before.
pub proof fn law_a_failure_reaches_the_default_handler<A: Environment, T, E, C>(
    command: C,
    before: World<A>,
    after: World<A>,
) where C: Command<A, Result<T, E>>, E: Into<A::Error>
    requires
        HandleError::<A, Result<T, E>>::handled(command).applied(before, after, ()),
        forall|result: Result<T, E>| #[trigger]
            command.applied(before, after, result) ==> result is Err,
    ensures
        exists|error: E|
            #![trigger command.applied(before, after, Err::<T, E>(error))]
            command.applied(before, after, Err::<T, E>(error)) && reported_for::<A, C, E>(
                after.default_error_handler,
                error,
            ),
{
    let result = choose|result: Result<T, E>| #[trigger]
        command.applied(before, after, result) && match result {
            Err(error) => reported_for::<A, C, E>(after.default_error_handler, error),
            _ => true,
        };
    assert(result == Err::<T, E>(result->Err_0));
}

/// A command that returns nothing is its own handled form.
pub proof fn law_commands_without_errors_need_no_handling<A: Environment, C>(
    command: C,
    error_handler: Option<A::ErrorHandler>,
) where C: Command<A>
    ensures
        HandleError::<A, ()>::handled_with(command, error_handler) == command,
        HandleError::<A, ()>::handled(command) == command,
{
}

/// A command for an entity that is not spawned may always be applied, does not
/// touch the world and fails with that entity.
pub proof fn law_missing_entities_are_errors<A: Environment, C>(
    command: C,
    entity: Entity,
    before: World<A>,
    after: World<A>,
    out: Result<(), EntityMutableFetchError>,
) where C: EntityCommand<A>
    requires
        !before.spawned(entity),
    ensures
        CommandWithEntity::<A, Result<(), EntityMutableFetchError>>::on_entity(
            command,
            entity,
        ).applicable(before),
        CommandWithEntity::<A, Result<(), EntityMutableFetchError>>::on_entity(
            command,
            entity,
        ).applied(before, after, out) ==> after == before && out == Err::<
            (),
            EntityMutableFetchError,
        >(EntityMutableFetchError::NotSpawned(entity)),
{
}

/// The same of an entity command that may itself fail, and there the two kinds of
/// failure stay apart: a missing entity never shows as the command's failure, nor
/// the command's failure as a missing entity.
pub proof fn law_missing_entities_and_failures_stay_apart<A: Environment, C, T, Error>(
    command: C,
    entity: Entity,
    before: World<A>,
    after: World<A>,
    out: Result<T, EntityCommandError<Error>>,
) where C: EntityCommand<A, Result<T, Error>>
    requires
        CommandWithEntity::<A, Result<T, EntityCommandError<Error>>>::on_entity(
            command,
            entity,
        ).applied(before, after, out),
    ensures
        !before.spawned(entity) <==> out matches Err(EntityCommandError::EntityFetchError(_)),
        !before.spawned(entity) ==> after == before && out == Err::<T, EntityCommandError<Error>>(
            EntityCommandError::EntityFetchError(EntityMutableFetchError::NotSpawned(entity)),
        ),
        out matches Err(EntityCommandError::CommandFailed(error)) ==> command.applied(
            entity,
            before,
            after,
            Err(error),
        ),
        out matches Ok(value) ==> command.applied(entity, before, after, Ok(value)),
{
}

} // verus!
