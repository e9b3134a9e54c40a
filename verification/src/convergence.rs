//! How the engine comes to rest when its four activities take their turns in
//! a given order: after an edit of the file from outside, after a change of
//! the value by the application, and after both.

use crate::config_file::TypedResult;
use crate::engine::{write_closed, Codec, Turn, World};
use crate::file_handler::{next_version, FileSide, SaverAction, WatcherAction};
use vstd::prelude::*;

verus! {

/// Once the engine has settled, no background activity does anything,
/// whichever takes a turn.
pub proof fn settled_is_stable<T>(world: World<T>, codec: Codec<T>, turn: Turn)
    requires
        world.settled(),
    ensures
        world.turn(codec, turn) == world,
{
}

/// A settled engine stays as it is under every schedule: the file is not
/// written again until somebody changes the file or the value.
pub proof fn settled_stays_settled<T>(world: World<T>, codec: Codec<T>, schedule: Seq<Turn>)
    requires
        world.settled(),
    ensures
        world.run(codec, schedule) == world,
    decreases schedule.len(),
{
    if schedule.len() > 0 {
        settled_is_stable(world, codec, schedule.first());
        settled_stays_settled(world, codec, schedule.drop_first());
    }
}

/// No turn of any schedule changes anything in a settled engine.
pub proof fn settled_is_idle<T>(world: World<T>, codec: Codec<T>, schedule: Seq<Turn>)
    requires
        world.settled(),
    ensures
        world.busy_turns(codec, schedule) == 0,
    decreases schedule.len(),
{
    if schedule.len() > 0 {
        settled_is_stable(world, codec, schedule.first());
        settled_is_idle(world, codec, schedule.drop_first());
    }
}

/// A stopped engine is halted: whichever activity is given a turn, neither
/// side changes and the file is not written.
pub proof fn stopped_engine_is_halted<T>(world: World<T>, codec: Codec<T>, turn: Turn)
    requires
        world.file.stop() == world.file,
        world.config.stop() == world.config,
    ensures
        world.turn(codec, turn).file == world.file,
        world.turn(codec, turn).config == world.config,
        world.turn(codec, turn).disk == world.disk,
        world.turn(codec, turn).writes == world.writes,
{
}

/// An engine that has not settled can go on: some activity's turn changes
/// something.
pub proof fn unsettled_can_go_on<T>(world: World<T>, codec: Codec<T>)
    requires
        !world.settled(),
    ensures
        exists|turn: Turn| #[trigger] world.turn(codec, turn) != world,
{
    if world.events > 0 {
        assert(world.turn(codec, Turn::Watcher) != world);
    } else if world.file.saver_pending() {
        assert(world.turn(codec, Turn::Saver) != world);
    } else if world.config.deserializer_pending(world.file) {
        assert(world.turn(codec, Turn::Deserializer) != world);
    } else {
        assert(world.turn(codec, Turn::Serializer) != world);
    }
}

/// After construction the serializer's first look drops the initial result,
/// which came from the file, and the engine is at rest without a write.
pub proof fn startup_settles<T>(
    path: Seq<char>,
    text: Seq<char>,
    result: TypedResult<T>,
    codec: Codec<T>,
)
    ensures
        World::start(path, text, result).serializer(codec).at_rest(),
        World::start(path, text, result).serializer(codec).writes == 0,
        World::start(path, text, result).serializer(codec).config.result == result,
{
}

/// An edit of the file from outside flows into the typed result, whether the
/// new text parses or not, when each activity takes its turn in the order of
/// the ring: watcher, deserializer, serializer, saver. The engine comes to
/// rest with the outcome of the parse as the typed result and the edited text
/// in the file; the saver has written that same text once, and the watcher
/// has ignored the echo.
pub proof fn external_edit_converges<T>(world: World<T>, codec: Codec<T>, text: Seq<char>)
    requires
        world.at_rest(),
        text != world.file.text,
    ensures
        ({
            let end = world.external_edit(text).watcher().deserializer(codec).serializer(
                codec,
            ).saver().watcher();
            &&& end.at_rest()
            &&& end.disk == text
            &&& end.config.result == codec.outcome(world.config.result, text)
            &&& end.writes == world.writes + 1
        }),
{
}

/// An edit of the file from outside to a text in the form that the
/// application's type serializes to flows into the typed result without any
/// write of the file, when the saver takes its turn before the serializer:
/// the saver skips the text, and the serializer finds nothing to publish.
pub proof fn external_edit_needs_no_write<T>(world: World<T>, codec: Codec<T>, text: Seq<char>)
    requires
        world.at_rest(),
        text != world.file.text,
        codec.canonical(text),
    ensures
        ({
            let end = world.external_edit(text).watcher().deserializer(codec).saver().serializer(
                codec,
            );
            &&& end.at_rest()
            &&& end.disk == text
            &&& end.config.result == codec.outcome(world.config.result, text)
            &&& end.config.result is Valid
            &&& end.writes == world.writes
        }),
{
}

/// Reading the file again when it holds the raw text changes nothing.
pub proof fn unchanged_file_is_idle<T>(world: World<T>)
    requires
        world.at_rest(),
    ensures
        world.external_edit(world.file.text).watcher() == world,
{
}

/// A change of the typed value by the application flows out to the file, when
/// the serializer and the saver take their turns before the deserializer. The
/// file then holds the serialization of the new value; the watcher takes the
/// notification of that write for the echo that it is and publishes nothing;
/// and the engine comes to rest with the new value as the typed value.
pub proof fn mutation_converges<T>(world: World<T>, codec: Codec<T>, result: TypedResult<T>)
    requires
        world.at_rest(),
        codec.faithful(),
    ensures
        ({
            let written = world.mutate(result).serializer(codec).saver();
            let echoed = written.watcher();
            let end = echoed.deserializer(codec).serializer(codec);
            &&& written.disk == (codec.render)(result.value())
            &&& written.writes <= world.writes + 1
            &&& echoed.file.text == written.file.text
            &&& echoed.file.version == written.file.version
            &&& echoed.disk == written.disk
            &&& end.at_rest()
            &&& end.disk == (codec.render)(result.value())
            &&& end.config.result.value() == result.value()
            &&& end.writes == written.writes
        }),
{
}

/// Publishing the same raw text a second time changes nothing: the version
/// stands, so neither the saver nor the deserializer has anything to do, and
/// a settled engine stays settled.
pub proof fn republishing_is_idle<T>(world: World<T>, text: Seq<char>)
    ensures
        world.file.publish(text).publish(text) == world.file.publish(text),
        world.file.publish(text).version == world.file.version
            || world.file.publish(text).version == next_version(world.file.version),
        world.settled() && world.file.text == text ==> (World {
            file: world.file.publish(text),
            ..world
        }).settled(),
{
}

/// A text that fails to parse leaves the last good value in place, with the
/// parser's message beside it, and the broken text stays in the file.
pub proof fn failed_parse_keeps_value<T>(
    world: World<T>,
    codec: Codec<T>,
    text: Seq<char>,
    value: T,
)
    requires
        world.at_rest(),
        world.config.result == TypedResult::Valid(value),
        text != world.file.text,
        (codec.parse)(text) is Err,
    ensures
        ({
            let end = world.external_edit(text).watcher().deserializer(codec).serializer(
                codec,
            ).saver().watcher();
            &&& end.at_rest()
            &&& end.disk == text
            &&& end.config.result == TypedResult::Invalid(value, (codec.parse)(text)->Err_0)
        }),
{
}

/// Each signal is taken once, however often it was set: of two notifications
/// in a row the watcher suppresses at most the first, and after a raw text
/// that the saver has skipped it writes the next.
pub proof fn signals_are_taken_once(file: FileSide, text: Seq<char>)
    requires
        !file.stopped,
    ensures
        file.watch(write_closed()).watcher_action(write_closed()) == WatcherAction::Read,
        file.watch(write_closed()).flags.originated_from_disk == file.flags.originated_from_disk,
        file.saver_action() == SaverAction::Skipped && text != file.text ==> file.save().publish(
            text,
        ).saver_action() == SaverAction::Write,
        file.save().flags.echoed_write == (file.flags.echoed_write || file.saver_action()
            == SaverAction::Write),
        file.arm_originated_from_disk().arm_originated_from_disk()
            == file.arm_originated_from_disk(),
{
}

/// The echoed-write signal suppresses one notification and no more. Two
/// changes by the application in a row cost one write of the file; the
/// notification of that write is ignored; an edit from outside that follows
/// is still read, and with a text in canonical form it costs no further
/// write.
pub proof fn suppression_is_single_shot<T>(
    world: World<T>,
    codec: Codec<T>,
    first: TypedResult<T>,
    second: TypedResult<T>,
    text: Seq<char>,
)
    requires
        world.at_rest(),
        (codec.render)(second.value()) != world.file.text,
        text != (codec.render)(second.value()),
        codec.canonical(text),
    ensures
        ({
            let written = world.mutate(first).mutate(second).serializer(codec).saver();
            let edited = written.external_edit(text);
            let echo_seen = edited.watcher();
            let edit_seen = echo_seen.watcher();
            let end = edit_seen.deserializer(codec).saver().serializer(codec);
            &&& written.writes == world.writes + 1
            &&& written.disk == (codec.render)(second.value())
            &&& written.file.flags.echoed_write
            &&& echo_seen.file.text == written.file.text
            &&& !echo_seen.file.flags.echoed_write
            &&& edit_seen.file.text == text
            &&& end.at_rest()
            &&& end.disk == text
            &&& end.config.result == codec.outcome(second, text)
            &&& end.writes == world.writes + 1
        }),
{
}

} // verus!
