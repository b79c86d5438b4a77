//! What holds of handled commands and of commands on entities, call by call: what
//! is done to the world, and what reaches which error handler.

use crate::command_handling::{
    Command, CommandWithEntity, Entity, EntityCommand, EntityCommandError, EntityMutableFetchError,
    EntityWorldMut, Environment, ErrorContext, HandleError, Never, World, report, report_for,
};
use vstd::prelude::*;

verus! {

/// Whether an entity is among those that are spawned in the world.
pub open spec fn is_spawned<A: Environment>(world: World<A>, entity: Entity) -> bool {
    exists|i: int|
        0 <= i < world.entities@.len() && (#[trigger] world.entities@[i]).index == entity.index
            && world.entities@[i].generation == entity.generation
}

proof fn lemma_spawned<A: Environment>(world: World<A>, entity: Entity)
    ensures
        world.spawned(entity) <==> is_spawned(world, entity),
{
    if world.spawned(entity) {
        let i = world.entities@.index_of(entity);
        assert(world.entities@[i] == entity);
    }
    if is_spawned(world, entity) {
        let i = choose|i: int|
            0 <= i < world.entities@.len() && (#[trigger] world.entities@[i]).index == entity.index
                && world.entities@[i].generation == entity.generation;
        assert(world.entities@[i] == entity);
    }
}

/// Whether `handler` was called with this error, converted, and with the name of
/// the command type `C`.
pub open spec fn got_error<A: Environment, C, E: Into<A::Error>>(
    handler: A::ErrorHandler,
    error: E,
) -> bool {
    exists|converted: A::Error, context: ErrorContext, name: String|
        {
            &&& #[trigger] call_ensures(A::command_name::<C>, (), name)
            &&& call_ensures(E::into, (error,), converted)
            &&& context matches ErrorContext::Command { name: shown } && shown@ == name@
            &&& #[trigger] call_ensures(handler, (converted, context), ())
        }
}

/// Whether `handler` may be called with this error, however it is converted, and
/// with the name of the command type `C`, whatever that is.
pub open spec fn may_get_error<A: Environment, C, E: Into<A::Error>>(
    handler: A::ErrorHandler,
    error: E,
) -> bool {
    forall|converted: A::Error, context: ErrorContext, name: String|
        {
            &&& #[trigger] call_ensures(A::command_name::<C>, (), name)
            &&& call_ensures(E::into, (error,), converted)
            &&& context matches ErrorContext::Command { name: shown } && shown@ == name@
        } ==> #[trigger] call_requires(handler, (converted, context))
}

/// A command with a handler of its own does to the world what the command does,
/// with some result; where that is an error, the handler got it, under the name of
/// the command's type.
pub proof fn law_given_handlers_get_the_errors<A: Environment, T, E, C>(
    command: C,
    handler: A::ErrorHandler,
    handled: <C as HandleError<A, Result<T, E>>>::HandledWith,
    world: &mut World<A>,
) where C: Command<A, Result<T, E>>, E: Into<A::Error>
    requires
        call_ensures(
            HandleError::<A, Result<T, E>>::handle_error_with,
            (command, Some(handler)),
            handled,
        ),
        call_ensures(Command::<A, ()>::apply, (handled, world), ()),
    ensures
        exists|result: Result<T, E>| #[trigger]
            command.applied(*old(world), *final(world), result) && (result matches Err(error)
                ==> got_error::<A, C, E>(handler, error)),
{
}

/// A command without a handler does to the world what the command does, and no
/// more: its error is ignored.
pub proof fn law_errors_without_a_handler_are_ignored<A: Environment, T, E, C>(
    command: C,
    handled: <C as HandleError<A, Result<T, E>>>::HandledWith,
    world: &mut World<A>,
) where C: Command<A, Result<T, E>>, E: Into<A::Error>
    requires
        call_ensures(
            HandleError::<A, Result<T, E>>::handle_error_with,
            (command, None::<A::ErrorHandler>),
            handled,
        ),
    ensures
        handled.applicable(*old(world)) <==> command.applicable(*old(world)),
        call_ensures(Command::<A, ()>::apply, (handled, world), ()) ==> exists|result: Result<T, E>|
            #[trigger] command.applied(*old(world), *final(world), result),
{
}

/// A command with the world's default handler does to the world what the command
/// does, with some result; where that is an error, the handler that the world has
/// then got it, under the name of the command's type.
pub proof fn law_default_handlers_get_the_errors<A: Environment, T, E, C>(
    command: C,
    handled: <C as HandleError<A, Result<T, E>>>::Handled,
    world: &mut World<A>,
) where C: Command<A, Result<T, E>>, E: Into<A::Error>
    requires
        call_ensures(HandleError::<A, Result<T, E>>::handle_error, (command,), handled),
        call_ensures(Command::<A, ()>::apply, (handled, world), ()),
    ensures
        exists|result: Result<T, E>| #[trigger]
            command.applied(*old(world), *final(world), result) && (result matches Err(error)
                ==> got_error::<A, C, E>(final(world).default_error_handler, error)),
{
}

/// A handled command may be applied where the command may, if the handler may be
/// called with whatever error the command may then fail with.
pub proof fn law_handled_commands_may_be_applied<A: Environment, T, E, C>(
    command: C,
    handler: A::ErrorHandler,
    with: <C as HandleError<A, Result<T, E>>>::HandledWith,
    by_default: <C as HandleError<A, Result<T, E>>>::Handled,
    world: World<A>,
) where C: Command<A, Result<T, E>>, E: Into<A::Error>
    requires
        call_ensures(
            HandleError::<A, Result<T, E>>::handle_error_with,
            (command, Some(handler)),
            with,
        ),
        call_ensures(HandleError::<A, Result<T, E>>::handle_error, (command,), by_default),
        command.applicable(world),
    ensures
        (forall|after: World<A>, error: E| #[trigger]
            command.applied(world, after, Err::<T, E>(error)) ==> may_get_error::<A, C, E>(
                handler,
                error,
            )) ==> with.applicable(world),
        (forall|after: World<A>, error: E| #[trigger]
            command.applied(world, after, Err::<T, E>(error)) ==> may_get_error::<A, C, E>(
                after.default_error_handler,
                error,
            )) ==> by_default.applicable(world),
{
}

/// A command that never returns is applied as it is, whatever the handler.
pub proof fn law_diverging_commands_are_applied<A: Environment, C>(
    command: C,
    handler: Option<A::ErrorHandler>,
    with: <C as HandleError<A, Never>>::HandledWith,
    by_default: <C as HandleError<A, Never>>::Handled,
    world: &mut World<A>,
) where C: Command<A, Never>
    requires
        call_ensures(HandleError::<A, Never>::handle_error_with, (command, handler), with),
        call_ensures(HandleError::<A, Never>::handle_error, (command,), by_default),
    ensures
        with.applicable(*old(world)) <==> command.applicable(*old(world)),
        by_default.applicable(*old(world)) <==> command.applicable(*old(world)),
        call_ensures(Command::<A, ()>::apply, (with, world), ()) ==> exists|never: Never| #[trigger]
            command.applied(*old(world), *final(world), never),
        call_ensures(Command::<A, ()>::apply, (by_default, world), ()) ==> exists|never: Never|
            #[trigger] command.applied(*old(world), *final(world), never),
{
}

/// A command without an output stays what it is, whatever the handler.
pub proof fn law_commands_without_output_stay_what_they_are<A: Environment, C>(
    command: C,
    handler: Option<A::ErrorHandler>,
    with: <C as HandleError<A, ()>>::HandledWith,
    by_default: <C as HandleError<A, ()>>::Handled,
) where C: Command<A>
    requires
        call_ensures(HandleError::<A, ()>::handle_error_with, (command, handler), with),
        call_ensures(HandleError::<A, ()>::handle_error, (command,), by_default),
    ensures
        with == command,
        by_default == command,
{
}

/// An entity is fetched exactly where it is spawned, and comes with the world;
/// otherwise the error names it and the world stays as it is.
pub proof fn law_spawned_entities_are_fetched<A: Environment>(
    world: &mut World<A>,
    entity: Entity,
    r: Result<EntityWorldMut<'_, A>, EntityMutableFetchError>,
)
    requires
        call_ensures(World::<A>::get_entity_mut, (world, entity), r),
    ensures
        r is Ok <==> is_spawned(*old(world), entity),
        r matches Ok(found) ==> {
            &&& found.entity == entity
            &&& *found.world == *old(world)
            &&& *final(world) == *final(found.world)
        },
        r matches Err(error) ==> {
            &&& error == EntityMutableFetchError::NotSpawned(entity)
            &&& *final(world) == *old(world)
        },
{
    lemma_spawned(*old(world), entity);
}

/// A command on an entity runs on exactly that entity where it is spawned, and
/// then succeeds; where it is not, nothing happens and the error names it.
pub proof fn law_entity_commands_run_on_their_entity<A: Environment, C>(
    command: C,
    entity: Entity,
    on_world: <C as CommandWithEntity<A, Result<(), EntityMutableFetchError>>>::WithEntity,
    world: &mut World<A>,
    out: Result<(), EntityMutableFetchError>,
) where C: EntityCommand<A>
    requires
        call_ensures(
            CommandWithEntity::<A, Result<(), EntityMutableFetchError>>::with_entity,
            (command, entity),
            on_world,
        ),
        call_ensures(
            Command::<A, Result<(), EntityMutableFetchError>>::apply,
            (on_world, world),
            out,
        ),
    ensures
        Command::<A, Result<(), EntityMutableFetchError>>::applicable(&on_world, *old(world)) <==> (
        is_spawned(*old(world), entity) ==> command.applicable(entity, *old(world))),
        is_spawned(*old(world), entity) ==> out is Ok && command.applied(
            entity,
            *old(world),
            *final(world),
            (),
        ),
        !is_spawned(*old(world), entity) ==> *final(world) == *old(world) && out == Err::<
            (),
            EntityMutableFetchError,
        >(EntityMutableFetchError::NotSpawned(entity)),
{
    lemma_spawned(*old(world), entity);
}

/// The same of an entity command that may itself fail: its result is passed on,
/// its failure marked as such, and a missing entity is another failure.
pub proof fn law_results_of_entity_commands_are_passed_on<A: Environment, C, T, Error>(
    command: C,
    entity: Entity,
    on_world: <C as CommandWithEntity<A, Result<T, EntityCommandError<Error>>>>::WithEntity,
    world: &mut World<A>,
    out: Result<T, EntityCommandError<Error>>,
) where C: EntityCommand<A, Result<T, Error>>
    requires
        call_ensures(
            CommandWithEntity::<A, Result<T, EntityCommandError<Error>>>::with_entity,
            (command, entity),
            on_world,
        ),
        call_ensures(
            Command::<A, Result<T, EntityCommandError<Error>>>::apply,
            (on_world, world),
            out,
        ),
    ensures
        Command::<A, Result<T, EntityCommandError<Error>>>::applicable(&on_world, *old(world))
            <==> (is_spawned(*old(world), entity) ==> command.applicable(entity, *old(world))),
        is_spawned(*old(world), entity) ==> {
            ||| out matches Ok(value) && command.applied(
                entity,
                *old(world),
                *final(world),
                Ok(value),
            )
            ||| out matches Err(EntityCommandError::CommandFailed(error)) && command.applied(
                entity,
                *old(world),
                *final(world),
                Err(error),
            )
        },
        !is_spawned(*old(world), entity) ==> *final(world) == *old(world) && out == Err::<
            T,
            EntityCommandError<Error>,
        >(EntityCommandError::EntityFetchError(EntityMutableFetchError::NotSpawned(entity))),
{
    lemma_spawned(*old(world), entity);
}

/// Reporting an error calls the handler with it, converted, and with the name that
/// was given.
pub proof fn law_reports_call_the_handler<A: Environment, E: Into<A::Error>>(
    handler: A::ErrorHandler,
    error: E,
    name: String,
)
    requires
        call_ensures(report::<A, E>, (&handler, error, name), ()),
    ensures
        exists|converted: A::Error, context: ErrorContext|
            {
                &&& call_ensures(E::into, (error,), converted)
                &&& context matches ErrorContext::Command { name: shown } && shown@ == name@
                &&& #[trigger] call_ensures(handler, (converted, context), ())
            },
{
}

/// Reporting for a command type calls the handler under that type's name.
pub proof fn law_reports_name_the_command<A: Environment, C, E: Into<A::Error>>(
    handler: A::ErrorHandler,
    error: E,
)
    requires
        call_ensures(report_for::<A, C, E>, (&handler, error), ()),
    ensures
        got_error::<A, C, E>(handler, error),
{
}

} // verus!
