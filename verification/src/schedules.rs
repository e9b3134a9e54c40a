//! How the engine comes to rest whatever the order in which its four
//! activities take their turns: what every schedule keeps true after a raw
//! text was published, and what follows once the engine has settled.

use crate::config_file::TypedResult;
use crate::convergence::{settled_is_idle, settled_stays_settled};
use crate::engine::{Codec, Turn, World};
use crate::file_handler::{next_version, FileSide};
use crate::suppression::SuppressionFlags;
use vstd::prelude::*;

verus! {

/// The raw text of `origin` has just been published: the saver and the
/// deserializer have still to look at it, and nothing else is going on.
pub open spec fn freshly_published<T>(origin: World<T>) -> bool {
    &&& origin.events == 0
    &&& origin.file.flags == SuppressionFlags::clear()
    &&& origin.file.saver_pending()
    &&& origin.config.deserializer_pending(origin.file)
    &&& !origin.config.stopped
    &&& origin.config.serializer_seen == origin.config.version
}

/// The typed result that the parse of the raw text of `origin` leads to
/// serializes to that same text, so that the serializer finds nothing to
/// publish after it.
pub open spec fn comes_back_unchanged<T>(origin: World<T>, codec: Codec<T>) -> bool {
    (codec.render)(codec.outcome(origin.config.result, origin.file.text).value())
        == origin.file.text
}

/// The world in which the serializer has published the raw text a second
/// time: the deserializer parsed the raw text of `origin`, the saver skipped
/// it, and the serializer found that the value serializes to another text.
pub open spec fn republished<T>(origin: World<T>, codec: Codec<T>) -> World<T> {
    origin.deserializer(codec).saver().serializer(codec)
}

/// Where the engine can be, under any schedule, while the raw text that was
/// published in `origin` is still the raw text. The saver and the
/// deserializer each have or have not yet had their turn on it, and the
/// serializer has or has not yet looked at what the deserializer published;
/// the signals, the notifications in flight, the file and the count of writes
/// follow from which have.
pub open spec fn publication_underway<T>(origin: World<T>, codec: Codec<T>, now: World<T>) -> bool {
    let saved = now.file.saver_seen == origin.file.version;
    let parsed = now.config.deserializer_seen == origin.file.version;
    let wrote = now.writes != origin.writes;
    let looked = now.config.serializer_seen == now.config.version;
    &&& now.file == FileSide {
        saver_seen: now.file.saver_seen,
        flags: now.file.flags,
        ..origin.file
    }
    &&& !saved ==> now.file.saver_seen == origin.file.saver_seen
    &&& !parsed ==> now.config.deserializer_seen == origin.config.deserializer_seen
    &&& now.config.stopped == origin.config.stopped
    &&& now.config.result == if parsed {
        codec.outcome(origin.config.result, origin.file.text)
    } else {
        origin.config.result
    }
    &&& now.config.version == if parsed {
        next_version(origin.config.version)
    } else {
        origin.config.version
    }
    &&& !looked ==> now.config.serializer_seen == origin.config.serializer_seen
    &&& wrote ==> saved && now.writes == origin.writes + 1
    &&& now.disk == if wrote {
        origin.file.text
    } else {
        origin.disk
    }
    &&& saved && !wrote ==> parsed
    &&& now.file.flags.originated_from_disk == (parsed && !looked && !(saved && !wrote))
    &&& if wrote && now.file.flags.echoed_write {
        now.events == 1
    } else {
        !now.file.flags.echoed_write && now.events == 0
    }
}

/// Where the engine can be, under any schedule, after the raw text was
/// published in `origin`: busy with that text, or with the text that the
/// serializer has published in its place.
pub open spec fn propagation_underway<T>(origin: World<T>, codec: Codec<T>, now: World<T>) -> bool {
    ||| publication_underway(origin, codec, now)
    ||| !comes_back_unchanged(origin, codec) && publication_underway(
        republished(origin, codec),
        codec,
        now,
    )
}

/// The turns that are still to come while the raw text of `origin` is the
/// raw text: two for the saver, whose write brings a notification, two for
/// the deserializer, whose publication brings the serializer's look.
pub open spec fn turns_left<T>(origin: World<T>, now: World<T>) -> nat {
    let saved = now.file.saver_seen == origin.file.version;
    let parsed = now.config.deserializer_seen == origin.file.version;
    let looked = now.config.serializer_seen == now.config.version;
    (if saved { 0nat } else { 2nat })
        + (if parsed { 0nat } else { 2nat })
        + (if parsed && !looked { 1nat } else { 0nat })
        + now.events
}

/// A bound on the turns that can still change anything after the raw text
/// was published in `origin`.
pub open spec fn work_left<T>(origin: World<T>, codec: Codec<T>, now: World<T>) -> nat {
    if now.file.version != origin.file.version {
        turns_left(republished(origin, codec), now)
    } else if comes_back_unchanged(origin, codec) {
        turns_left(origin, now)
    } else {
        turns_left(origin, now) + 6
    }
}

/// One turn of any activity keeps the engine busy with the published text,
/// or is the serializer's second publication.
pub proof fn publication_turn<T>(origin: World<T>, codec: Codec<T>, now: World<T>, turn: Turn)
    requires
        freshly_published(origin),
        publication_underway(origin, codec, now),
    ensures
        publication_underway(origin, codec, now.turn(codec, turn)) || (!comes_back_unchanged(
            origin,
            codec,
        ) && now.turn(codec, turn) == republished(origin, codec)),
{
}

/// The serializer's second publication is a fresh one, and the text of it
/// comes back unchanged: there is no third.
pub proof fn republished_once<T>(origin: World<T>, codec: Codec<T>)
    requires
        freshly_published(origin),
        codec.faithful(),
        !comes_back_unchanged(origin, codec),
    ensures
        freshly_published(republished(origin, codec)),
        comes_back_unchanged(republished(origin, codec), codec),
        publication_underway(republished(origin, codec), codec, republished(origin, codec)),
        republished(origin, codec).writes == origin.writes,
        republished(origin, codec).disk == origin.disk,
        republished(origin, codec).file.text == (codec.render)(
            codec.outcome(origin.config.result, origin.file.text).value(),
        ),
        republished(origin, codec).config.result == codec.outcome(
            origin.config.result,
            origin.file.text,
        ),
{
}

/// Every turn keeps the engine within `propagation_underway`.
pub proof fn propagation_turn<T>(origin: World<T>, codec: Codec<T>, now: World<T>, turn: Turn)
    requires
        freshly_published(origin),
        codec.faithful(),
        propagation_underway(origin, codec, now),
    ensures
        propagation_underway(origin, codec, now.turn(codec, turn)),
{
    if publication_underway(origin, codec, now) {
        publication_turn(origin, codec, now, turn);
        if !comes_back_unchanged(origin, codec) {
            republished_once(origin, codec);
        }
    } else {
        republished_once(origin, codec);
        publication_turn(republished(origin, codec), codec, now, turn);
    }
}

/// Every schedule keeps the engine within `propagation_underway`.
pub proof fn propagation_stays_underway<T>(
    origin: World<T>,
    codec: Codec<T>,
    now: World<T>,
    schedule: Seq<Turn>,
)
    requires
        freshly_published(origin),
        codec.faithful(),
        propagation_underway(origin, codec, now),
    ensures
        propagation_underway(origin, codec, now.run(codec, schedule)),
    decreases schedule.len(),
{
    if schedule.len() > 0 {
        let turn = schedule.first();
        propagation_turn(origin, codec, now, turn);
        propagation_stays_underway(origin, codec, now.turn(codec, turn), schedule.drop_first());
    }
}

/// Every turn that changes anything uses up some of the work that is left.
pub proof fn turn_uses_up_work<T>(origin: World<T>, codec: Codec<T>, now: World<T>, turn: Turn)
    requires
        freshly_published(origin),
        codec.faithful(),
        propagation_underway(origin, codec, now),
    ensures
        now.turn(codec, turn) != now ==> work_left(origin, codec, now.turn(codec, turn))
            < work_left(origin, codec, now),
        now.settled() <==> turns_left(
            if now.file.version != origin.file.version {
                republished(origin, codec)
            } else {
                origin
            },
            now,
        ) == 0,
{
    if !comes_back_unchanged(origin, codec) {
        republished_once(origin, codec);
    }
}

/// No oscillation, counted: after a raw text was published, at most ten
/// turns change anything, however long the schedule and however its turns
/// fall.
pub proof fn propagation_takes_bounded_work<T>(
    origin: World<T>,
    codec: Codec<T>,
    now: World<T>,
    schedule: Seq<Turn>,
)
    requires
        freshly_published(origin),
        codec.faithful(),
        propagation_underway(origin, codec, now),
    ensures
        now.busy_turns(codec, schedule) <= work_left(origin, codec, now),
        work_left(origin, codec, origin) <= 10,
        comes_back_unchanged(origin, codec) ==> work_left(origin, codec, origin) <= 4,
    decreases schedule.len(),
{
    if schedule.len() > 0 {
        let turn = schedule.first();
        turn_uses_up_work(origin, codec, now, turn);
        propagation_turn(origin, codec, now, turn);
        propagation_takes_bounded_work(origin, codec, now.turn(codec, turn), schedule.drop_first());
    }
}

/// No oscillation: a published raw text leads to one write of the file at
/// most, under every schedule, and whenever the engine has settled, no
/// signal is left set and the typed value is the one that the parse of the
/// published text led to. The raw text is then the published one, or the
/// serialization of that value where the serializer put it in its place.
pub proof fn propagation_settles<T>(
    origin: World<T>,
    codec: Codec<T>,
    now: World<T>,
)
    requires
        freshly_published(origin),
        codec.faithful(),
        propagation_underway(origin, codec, now),
    ensures
        now.writes <= origin.writes + 1,
        now.writes == origin.writes ==> now.disk == origin.disk,
        now.writes != origin.writes ==> now.disk == now.file.text,
        now.settled() ==> {
            let outcome = codec.outcome(origin.config.result, origin.file.text);
            &&& now.file.flags == SuppressionFlags::clear()
            &&& now.config.result.value() == outcome.value()
            &&& {
                ||| now.file.text == origin.file.text && now.config.result == outcome
                ||| now.file.text == (codec.render)(outcome.value()) && now.config.result
                    == TypedResult::Valid(outcome.value())
            }
            &&& comes_back_unchanged(origin, codec) ==> now.file.text == origin.file.text
        },
{
    if !comes_back_unchanged(origin, codec) {
        republished_once(origin, codec);
    }
}

/// An edit of the file from outside converges under every schedule, whatever
/// the text. However the turns of the four activities fall, at most eleven of
/// them change anything and the file is written at most once; and whenever
/// the engine has settled, no signal is left set and the typed value is the
/// parsed one, or the one held before if the text does not parse.
pub proof fn external_edit_settles_under_every_schedule<T>(
    world: World<T>,
    codec: Codec<T>,
    text: Seq<char>,
    schedule: Seq<Turn>,
)
    requires
        world.at_rest(),
        text != world.file.text,
        codec.faithful(),
    ensures
        ({
            let now = world.external_edit(text).run(codec, schedule);
            let outcome = codec.outcome(world.config.result, text);
            &&& world.external_edit(text).busy_turns(codec, schedule) <= 11
            &&& now.writes <= world.writes + 1
            &&& now.writes == world.writes ==> now.disk == text
            &&& now.settled() ==> {
                &&& now.file.flags == SuppressionFlags::clear()
                &&& now.config.result.value() == outcome.value()
                &&& {
                    ||| now.file.text == text && now.config.result == outcome
                    ||| now.file.text == (codec.render)(outcome.value()) && now.config.result
                        == TypedResult::Valid(outcome.value())
                }
                &&& codec.canonical(text) ==> now.at_rest() && now.config.result == outcome
            }
        }),
{
    let edited = world.external_edit(text);
    let now = edited.run(codec, schedule);
    let origin = edited.watcher();
    external_edit_is_read(world, codec, text, schedule);
    if now != edited {
        propagation_settles(origin, codec, now);
    }
}

/// Until the watcher has had its turn on an edit from outside, nothing
/// happens; from then on the engine is busy with the text that it read.
proof fn external_edit_is_read<T>(
    world: World<T>,
    codec: Codec<T>,
    text: Seq<char>,
    schedule: Seq<Turn>,
)
    requires
        world.at_rest(),
        text != world.file.text,
        codec.faithful(),
    ensures
        ({
            let edited = world.external_edit(text);
            let now = edited.run(codec, schedule);
            &&& now == edited || propagation_underway(edited.watcher(), codec, now)
            &&& edited.busy_turns(codec, schedule) <= 11
        }),
    decreases schedule.len(),
{
    let edited = world.external_edit(text);
    if schedule.len() > 0 {
        let next = edited.turn(codec, schedule.first());
        if next == edited {
            external_edit_is_read(world, codec, text, schedule.drop_first());
        } else {
            assert(next == edited.watcher());
            propagation_stays_underway(edited.watcher(), codec, next, schedule.drop_first());
            propagation_takes_bounded_work(edited.watcher(), codec, next, schedule.drop_first());
        }
    }
}

/// A change of the typed value by the application converges under every
/// schedule. However the turns of the four activities fall, at most five of
/// them change anything, and the file is written at most once, and then with
/// the serialization of the new value. Whenever the engine has settled, no
/// signal is left set, the typed value is the new one and the raw text is its
/// serialization. The file itself keeps its old content where the saver has
/// skipped the text, which it does when the deserializer's turn came first.
pub proof fn mutation_settles_under_every_schedule<T>(
    world: World<T>,
    codec: Codec<T>,
    result: TypedResult<T>,
    schedule: Seq<Turn>,
)
    requires
        world.at_rest(),
        codec.faithful(),
    ensures
        ({
            let now = world.mutate(result).run(codec, schedule);
            &&& world.mutate(result).busy_turns(codec, schedule) <= 5
            &&& now.writes <= world.writes + 1
            &&& now.writes == world.writes ==> now.disk == world.disk
            &&& now.writes != world.writes ==> now.disk == (codec.render)(result.value())
            &&& now.settled() ==> {
                &&& now.file.flags == SuppressionFlags::clear()
                &&& now.config.result.value() == result.value()
                &&& now.file.text == (codec.render)(result.value())
            }
        }),
{
    let changed = world.mutate(result);
    let now = changed.run(codec, schedule);
    let origin = changed.serializer(codec);
    mutation_is_serialized(world, codec, result, schedule);
    if now != changed && now != origin {
        propagation_settles(origin, codec, now);
    } else if now == origin && origin.settled() {
        assert(origin.file.text == (codec.render)(result.value()));
    }
}

/// Until the serializer has had its turn on a change by the application,
/// nothing happens; from then on the engine is settled, if the value
/// serializes to the raw text, or busy with the text that was published.
proof fn mutation_is_serialized<T>(
    world: World<T>,
    codec: Codec<T>,
    result: TypedResult<T>,
    schedule: Seq<Turn>,
)
    requires
        world.at_rest(),
        codec.faithful(),
    ensures
        ({
            let changed = world.mutate(result);
            let origin = changed.serializer(codec);
            let now = changed.run(codec, schedule);
            &&& {
                ||| now == changed
                ||| now == origin && origin.settled()
                ||| freshly_published(origin) && origin.file.text == (codec.render)(
                    result.value(),
                ) && origin.config.result == result && origin.writes == world.writes
                    && origin.disk == world.disk && propagation_underway(origin, codec, now)
            }
            &&& changed.busy_turns(codec, schedule) <= 5
        }),
    decreases schedule.len(),
{
    let changed = world.mutate(result);
    let origin = changed.serializer(codec);
    if schedule.len() > 0 {
        let next = changed.turn(codec, schedule.first());
        if next == changed {
            mutation_is_serialized(world, codec, result, schedule.drop_first());
        } else {
            assert(next == origin);
            if origin.settled() {
                settled_stays_settled(origin, codec, schedule.drop_first());
                settled_is_idle(origin, codec, schedule.drop_first());
            } else {
                propagation_stays_underway(origin, codec, next, schedule.drop_first());
                propagation_takes_bounded_work(origin, codec, next, schedule.drop_first());
            }
        }
    }
}

} // verus!
