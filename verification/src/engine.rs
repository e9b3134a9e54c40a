//! The engine as a whole, as a mathematical model: the two sides, the file on
//! disk and the notifications in flight, with one transition for each thing
//! that can happen, and schedules of such transitions.

use crate::config_file::{SerializerAction, TypedResult, TypedSide};
use crate::event::{AccessKind, AccessMode, EventKind};
use crate::file_handler::{FileSide, SaverAction, WatcherAction};
use crate::suppression::SuppressionFlags;
use vstd::prelude::*;

verus! {

/// How the application's type is read from text and written as text.
#[verifier::reject_recursive_types(T)]
pub ghost struct Codec<T> {
    /// The value that a text parses to, or the parser's message.
    pub parse: spec_fn(Seq<char>) -> Result<T, Seq<char>>,
    /// The text that a value serializes to.
    pub render: spec_fn(T) -> Seq<char>,
}

impl<T> Codec<T> {
    /// Every value parses back from its own serialization.
    pub open spec fn faithful(self) -> bool {
        forall|value: T| #[trigger] (self.parse)((self.render)(value)) == Ok::<T, Seq<char>>(value)
    }

    /// `text` is the serialization of the value that it parses to.
    pub open spec fn canonical(self, text: Seq<char>) -> bool {
        (self.parse)(text) matches Ok(value) && (self.render)(value) == text
    }

    /// The typed result after a parse of `text`, where `held` was there before.
    pub open spec fn outcome(self, held: TypedResult<T>, text: Seq<char>) -> TypedResult<T> {
        match (self.parse)(text) {
            Ok(value) => TypedResult::Valid(value),
            Err(message) => held.with_error(message),
        }
    }
}

/// The notification that a writer has finished and closed the file.
pub open spec fn write_closed() -> EventKind {
    EventKind::Access(AccessKind::Close(AccessMode::Write))
}

/// The background activities, as the turns that a schedule is made of.
pub ghost enum Turn {
    Watcher,
    Saver,
    Deserializer,
    Serializer,
}

/// The engine and its surroundings at one moment.
pub ghost struct World<T> {
    /// The file side.
    pub file: FileSide,
    /// The typed side.
    pub config: TypedSide<T>,
    /// What the file holds.
    pub disk: Seq<char>,
    /// The finished writes of which the watcher has still to be told.
    pub events: nat,
    /// How often the engine has written the file.
    pub writes: nat,
}

impl<T> World<T> {
    /// The world right after construction over a file that holds `text`,
    /// which parsed to `result`.
    pub open spec fn start(path: Seq<char>, text: Seq<char>, result: TypedResult<T>) -> World<T> {
        let file = FileSide::start(path, text);
        World {
            file: file.arm_originated_from_disk(),
            config: TypedSide::start(result, file),
            disk: text,
            events: 0,
            writes: 0,
        }
    }

    /// Somebody else replaces the file's content by `text`.
    pub open spec fn external_edit(self, text: Seq<char>) -> World<T> {
        World { disk: text, events: self.events + 1, ..self }
    }

    /// The application leaves `result` in place of the typed result.
    pub open spec fn mutate(self, result: TypedResult<T>) -> World<T> {
        World { config: self.config.send(result), ..self }
    }

    /// The watcher is told of one finished write, and reads the file where it
    /// decides to. The read succeeds: one that failed would leave everything
    /// but the count of notifications as it was.
    pub open spec fn watcher(self) -> World<T> {
        if self.events == 0 {
            self
        } else {
            let decided = self.file.watch(write_closed());
            World {
                file: if self.file.watcher_action(write_closed()) == WatcherAction::Read {
                    decided.read(Some(self.disk))
                } else {
                    decided
                },
                events: (self.events - 1) as nat,
                ..self
            }
        }
    }

    /// The saver takes its turn, and writes the file where it decides to.
    pub open spec fn saver(self) -> World<T> {
        if self.file.saver_action() == SaverAction::Write {
            World {
                file: self.file.save(),
                disk: self.file.text,
                events: self.events + 1,
                writes: self.writes + 1,
                ..self
            }
        } else {
            World { file: self.file.save(), ..self }
        }
    }

    /// The deserializer takes its turn: where the raw text is new to it, it
    /// parses the text and publishes the outcome.
    pub open spec fn deserializer(self, codec: Codec<T>) -> World<T> {
        if self.config.deserializer_pending(self.file) {
            World {
                file: self.file.arm_originated_from_disk(),
                config: self.config.observe_raw(self.file).deserialize(
                    (codec.parse)(self.file.text),
                ),
                ..self
            }
        } else {
            self
        }
    }

    /// The serializer takes its turn: where it decides to, it serializes the
    /// typed value and publishes the text.
    pub open spec fn serializer(self, codec: Codec<T>) -> World<T> {
        match self.config.serializer_action(self.file) {
            SerializerAction::Idle => self,
            SerializerAction::Dropped => World {
                file: self.file.take_originated_from_disk(),
                config: self.config.observe_typed(),
                ..self
            },
            SerializerAction::Serialize => World {
                file: self.file.publish((codec.render)(self.config.result.value())),
                config: self.config.observe_typed(),
                ..self
            },
        }
    }

    /// One turn of one background activity.
    pub open spec fn turn(self, codec: Codec<T>, turn: Turn) -> World<T> {
        match turn {
            Turn::Watcher => self.watcher(),
            Turn::Saver => self.saver(),
            Turn::Deserializer => self.deserializer(codec),
            Turn::Serializer => self.serializer(codec),
        }
    }

    /// The turns of `schedule`, one after the other.
    pub open spec fn run(self, codec: Codec<T>, schedule: Seq<Turn>) -> World<T>
        decreases schedule.len(),
    {
        if schedule.len() == 0 {
            self
        } else {
            self.turn(codec, schedule.first()).run(codec, schedule.drop_first())
        }
    }

    /// How many turns of `schedule` change anything.
    pub open spec fn busy_turns(self, codec: Codec<T>, schedule: Seq<Turn>) -> nat
        decreases schedule.len(),
    {
        if schedule.len() == 0 {
            0
        } else {
            let next = self.turn(codec, schedule.first());
            let rest = next.busy_turns(codec, schedule.drop_first());
            if next == self {
                rest
            } else {
                rest + 1
            }
        }
    }

    /// Nothing is left to do: no notification is in flight and every
    /// background activity has seen the latest value of its channel.
    pub open spec fn settled(self) -> bool {
        &&& self.events == 0
        &&& !self.file.saver_pending()
        &&& !self.config.deserializer_pending(self.file)
        &&& !self.config.serializer_pending()
    }

    /// The engine is running and settled, no signal is set, and the raw text
    /// is what the file holds.
    pub open spec fn at_rest(self) -> bool {
        &&& self.settled()
        &&& !self.file.stopped
        &&& !self.config.stopped
        &&& self.file.flags == SuppressionFlags::clear()
        &&& self.disk == self.file.text
    }
}

} // verus!
