//! The typed side of the engine: the typed result and its two background roles.

use crate::file_handler::{bump, next_version, FileHander, FileSide};
use core::fmt::Display;
use vstd::prelude::*;
use vstd::std_specs::convert::FromSpecImpl;
use vstd::string::to_string_from_display_ensures;

verus! {

/// The application's view of the configuration: the current value, with the
/// message of the latest failed parse where there was one.
#[derive(Debug, Clone)]
pub enum ConfigResult<T> {
    /// The text parsed; this is its value.
    Valid(T),
    /// The latest text did not parse; the value is the last good one.
    Invalid(T, String),
}

/// What a `ConfigResult` holds, as a mathematical value.
pub ghost enum TypedResult<T> {
    Valid(T),
    Invalid(T, Seq<char>),
}

impl<T> TypedResult<T> {
    /// The payload, whichever variant holds it.
    pub open spec fn value(self) -> T {
        match self {
            TypedResult::Valid(v) => v,
            TypedResult::Invalid(v, _) => v,
        }
    }

    /// The same variant and message around another payload.
    pub open spec fn with_value(self, value: T) -> Self {
        match self {
            TypedResult::Valid(_) => TypedResult::Valid(value),
            TypedResult::Invalid(_, message) => TypedResult::Invalid(value, message),
        }
    }

    /// The payload kept, annotated with `message`.
    pub open spec fn with_error(self, message: Seq<char>) -> Self {
        TypedResult::Invalid(self.value(), message)
    }
}

impl<T> View for ConfigResult<T> {
    type V = TypedResult<T>;

    open spec fn view(&self) -> TypedResult<T> {
        match self {
            ConfigResult::Valid(v) => TypedResult::Valid(*v),
            ConfigResult::Invalid(v, message) => TypedResult::Invalid(*v, message@),
        }
    }
}

impl<T: Default> ConfigResult<T> {
    /// Marks the result as invalid with the text that `errors` displays as,
    /// keeping the value it held.
    pub fn with_error<E: Display + ?Sized>(&mut self, errors: &E)
        ensures
            final(self)@.value() == old(self)@.value(),
            *final(self) matches ConfigResult::Invalid(_, message)
                && to_string_from_display_ensures::<E>(errors, message),
    {
        let message = errors.to_string();
        let mut value = T::default();
        match self {
            ConfigResult::Valid(v) => core::mem::swap(v, &mut value),
            ConfigResult::Invalid(v, _) => core::mem::swap(v, &mut value),
        }
        *self = ConfigResult::Invalid(value, message);
    }

    /// The current value, valid or last known good.
    pub fn get(&self) -> (value: &T)
        ensures
            *value == self@.value(),
    {
        match self {
            ConfigResult::Valid(v) => v,
            ConfigResult::Invalid(v, _) => v,
        }
    }

    /// The current value, to change in place; variant and message stay.
    pub fn get_mut(&mut self) -> (value: &mut T)
        ensures
            *value == old(self)@.value(),
            final(self)@ == old(self)@.with_value(*final(value)),
    {
        match self {
            ConfigResult::Valid(v) => v,
            ConfigResult::Invalid(v, _) => v,
        }
    }
}

impl<T: Default> Default for ConfigResult<T> {
    fn default() -> (result: Self)
        ensures
            result matches ConfigResult::Valid(value) && T::default.ensures((), value),
    {
        ConfigResult::Valid(T::default())
    }
}

impl<T> From<T> for ConfigResult<T> {
    fn from(value: T) -> (result: Self) {
        ConfigResult::Valid(value)
    }
}

impl<T> FromSpecImpl<T> for ConfigResult<T> {
    open spec fn obeys_from_spec() -> bool {
        true
    }

    open spec fn from_spec(value: T) -> Self {
        ConfigResult::Valid(value)
    }
}

/// What the serializer does about the typed result.
#[derive(Debug, Clone, Copy, PartialEq, Eq, Structural)]
pub enum SerializerAction {
    /// Nothing: the serializer has seen this result, or is stopped.
    Idle,
    /// Nothing: the change came from the file by way of the deserializer.
    Dropped,
    /// Serialize the current value and publish the text as the raw text.
    Serialize,
}

/// The version before `version`: the one that `next_version` follows.
pub open spec fn previous_version(version: u64) -> u64 {
    if version == 0 {
        u64::MAX
    } else {
        (version - 1) as u64
    }
}

/// The typed side as a mathematical value.
pub ghost struct TypedSide<T> {
    /// The typed result that the application sees.
    pub result: TypedResult<T>,
    /// Counts the changes of the typed result.
    pub version: u64,
    /// The version of the raw text that the deserializer has seen.
    pub deserializer_seen: u64,
    /// The version of the typed result that the serializer has seen.
    pub serializer_seen: u64,
    /// Whether the deserializer and the serializer are stopped.
    pub stopped: bool,
}

impl<T> TypedSide<T> {
    /// The typed side at startup: the deserializer has seen the raw text that
    /// `result` was parsed from, and the serializer is still to look at
    /// `result`.
    pub open spec fn start(result: TypedResult<T>, file: FileSide) -> TypedSide<T> {
        TypedSide {
            result,
            version: 0,
            deserializer_seen: file.version,
            serializer_seen: previous_version(0),
            stopped: false,
        }
    }

    /// Whether the raw text has changed since the deserializer last looked.
    pub open spec fn deserializer_pending(self, file: FileSide) -> bool {
        !self.stopped && self.deserializer_seen != file.version
    }

    /// The typed side after the deserializer has looked at the raw text.
    pub open spec fn observe_raw(self, file: FileSide) -> TypedSide<T> {
        if self.deserializer_pending(file) {
            TypedSide { deserializer_seen: file.version, ..self }
        } else {
            self
        }
    }

    /// The typed side after the deserializer has published the outcome of a
    /// parse: the parsed value as valid, or the value held so far with the
    /// parser's message. Either way the typed result counts as changed.
    pub open spec fn deserialize(self, parsed: Result<T, Seq<char>>) -> TypedSide<T> {
        TypedSide {
            result: match parsed {
                Ok(value) => TypedResult::Valid(value),
                Err(message) => self.result.with_error(message),
            },
            version: next_version(self.version),
            ..self
        }
    }

    /// The typed side after the application has put `result` in place of the
    /// typed result, which always counts as a change.
    pub open spec fn send(self, result: TypedResult<T>) -> TypedSide<T> {
        TypedSide { result, version: next_version(self.version), ..self }
    }

    /// Whether the typed result has changed since the serializer last looked.
    pub open spec fn serializer_pending(self) -> bool {
        !self.stopped && self.serializer_seen != self.version
    }

    /// What the serializer does now.
    pub open spec fn serializer_action(self, file: FileSide) -> SerializerAction {
        if !self.serializer_pending() {
            SerializerAction::Idle
        } else if file.flags.originated_from_disk {
            SerializerAction::Dropped
        } else {
            SerializerAction::Serialize
        }
    }

    /// The typed side after the serializer has looked at the typed result.
    pub open spec fn observe_typed(self) -> TypedSide<T> {
        if self.serializer_pending() {
            TypedSide { serializer_seen: self.version, ..self }
        } else {
            self
        }
    }

    /// The deserializer and the serializer stopped.
    pub open spec fn stop(self) -> TypedSide<T> {
        TypedSide { stopped: true, ..self }
    }
}

/// An observer's place in the sequence of typed results.
#[derive(Debug, Clone, Copy)]
pub struct Subscriber {
    seen: u64,
}

impl Subscriber {
    /// The version of the typed result that the observer has seen.
    pub closed spec fn seen(&self) -> u64 {
        self.seen
    }
}

/// The typed result of one file with its deserializer and its serializer.
/// Parsing and serializing is the caller's part: the methods decide, the
/// caller acts.
pub struct ConfigurationFile<T> {
    result: ConfigResult<T>,
    version: u64,
    deserializer_seen: u64,
    serializer_seen: u64,
    stopped: bool,
}

impl<T> View for ConfigurationFile<T> {
    type V = TypedSide<T>;

    closed spec fn view(&self) -> TypedSide<T> {
        TypedSide {
            result: self.result@,
            version: self.version,
            deserializer_seen: self.deserializer_seen,
            serializer_seen: self.serializer_seen,
            stopped: self.stopped,
        }
    }
}

impl<T: Default> ConfigurationFile<T> {
    /// The typed side for `file`, from the outcome of parsing the file's
    /// content: the parsed value as valid, or the default value with the
    /// parser's message. The result came from the file, so the
    /// originated-from-disk signal is set for the serializer's first look.
    pub fn new<E: Display>(file: &mut FileHander, parsed: Result<T, E>) -> (config: Self)
        ensures
            final(file)@ == old(file)@.arm_originated_from_disk(),
            match parsed {
                Ok(value) => config@ == TypedSide::start(TypedResult::Valid(value), old(file)@),
                Err(errors) => exists|value: T, message: String|
                    T::default.ensures((), value) && to_string_from_display_ensures::<E>(
                        &errors,
                        message,
                    ) && config@ == TypedSide::start(
                        TypedResult::Invalid(value, message@),
                        old(file)@,
                    ),
            },
    {
        let initial = match parsed {
            Ok(value) => ConfigResult::Valid(value),
            Err(errors) => ConfigResult::Invalid(T::default(), errors.to_string()),
        };
        Self::seeded(file, initial)
    }

    /// The typed side for `file` with `initial` as its first typed result.
    pub fn seeded(file: &mut FileHander, initial: ConfigResult<T>) -> (config: Self)
        ensures
            final(file)@ == old(file)@.arm_originated_from_disk(),
            config@ == TypedSide::start(initial@, old(file)@),
    {
        file.arm_originated_from_disk();
        ConfigurationFile {
            result: initial,
            version: 0,
            deserializer_seen: file.version(),
            serializer_seen: u64::MAX,
            stopped: false,
        }
    }

    /// Whether the raw text has changed since the deserializer last looked.
    pub fn deserializer_pending(&self, file: &FileHander) -> (pending: bool)
        ensures
            pending == self@.deserializer_pending(file@),
    {
        !self.stopped && self.deserializer_seen != file.version()
    }

    /// Whether the typed result has changed since the serializer last looked.
    pub fn serializer_pending(&self) -> (pending: bool)
        ensures
            pending == self@.serializer_pending(),
    {
        !self.stopped && self.serializer_seen != self.version
    }

    /// The deserializer's look at the raw text. Where the text has changed
    /// since its last look, it sets the originated-from-disk signal and says
    /// that the text is to be parsed and the outcome handed to
    /// `deserializer`.
    pub fn raw_changed(&mut self, file: &mut FileHander) -> (pending: bool)
        ensures
            pending == old(self)@.deserializer_pending(old(file)@),
            final(self)@ == old(self)@.observe_raw(old(file)@),
            final(file)@ == if pending {
                old(file)@.arm_originated_from_disk()
            } else {
                old(file)@
            },
    {
        if self.stopped || self.deserializer_seen == file.version() {
            false
        } else {
            self.deserializer_seen = file.version();
            file.arm_originated_from_disk();
            true
        }
    }

    /// Publishes the outcome of parsing the raw text: the parsed value as
    /// valid, or the value held so far with the text that the error displays
    /// as.
    pub fn deserializer<E: Display>(&mut self, parsed: Result<T, E>)
        ensures
            parsed is Err ==> final(self)@.result is Invalid && final(self)@.result.value() == old(
                self,
            )@.result.value(),
            match parsed {
                Ok(value) => final(self)@ == old(self)@.deserialize(Ok(value)),
                Err(errors) => exists|message: String|
                    to_string_from_display_ensures::<E>(&errors, message) && final(self)@ == old(
                        self,
                    )@.deserialize(Err(message@)),
            },
    {
        match parsed {
            Ok(value) => self.deserialized(Ok(value)),
            Err(errors) => {
                let message = errors.to_string();
                self.deserialized(Err(message))
            },
        }
    }

    /// Publishes the outcome of a parse whose failure is already a message.
    pub fn deserialized(&mut self, parsed: Result<T, String>)
        ensures
            final(self)@ == old(self)@.deserialize(
                match parsed {
                    Ok(value) => Ok(value),
                    Err(message) => Err(message@),
                },
            ),
    {
        match parsed {
            Ok(value) => {
                self.result = ConfigResult::Valid(value);
            },
            Err(message) => {
                self.result.with_error(message.as_str());
            },
        }
        self.version = bump(self.version);
    }

    /// The serializer's look at the typed result. A result that it has seen
    /// needs nothing. A new one is dropped, once, if the originated-from-disk
    /// signal is set, which clears the signal; otherwise the current value is
    /// to be serialized and the text published as the raw text.
    pub fn serializer(&mut self, file: &mut FileHander) -> (action: SerializerAction)
        ensures
            action == old(self)@.serializer_action(old(file)@),
            final(self)@ == old(self)@.observe_typed(),
            final(file)@ == if action == SerializerAction::Dropped {
                old(file)@.take_originated_from_disk()
            } else {
                old(file)@
            },
    {
        if self.stopped || self.serializer_seen == self.version {
            SerializerAction::Idle
        } else {
            self.serializer_seen = self.version;
            if file.take_originated_from_disk() {
                SerializerAction::Dropped
            } else {
                SerializerAction::Serialize
            }
        }
    }

    /// A new observer, for which the current typed result is still unseen.
    pub fn rx(&self) -> (subscriber: Subscriber)
        ensures
            subscriber.seen() == previous_version(self@.version),
            subscriber.seen() != self@.version,
    {
        Subscriber { seen: if self.version == 0 { u64::MAX } else { self.version - 1 } }
    }

    /// Whether the typed result has changed since `subscriber` last looked;
    /// the look counts as seeing the current one.
    pub fn changed(&self, subscriber: &mut Subscriber) -> (changed: bool)
        ensures
            changed == (old(subscriber).seen() != self@.version),
            final(subscriber).seen() == self@.version,
    {
        let changed = subscriber.seen != self.version;
        subscriber.seen = self.version;
        changed
    }

    /// The current typed result.
    pub fn borrow(&self) -> (result: &ConfigResult<T>)
        ensures
            result@ == self@.result,
    {
        &self.result
    }

    /// The typed result, for the application to change in place. Whatever
    /// the application leaves there counts as a change.
    pub fn tx(&mut self) -> (result: &mut ConfigResult<T>)
        ensures
            result@ == old(self)@.result,
            final(self)@ == old(self)@.send(final(result)@),
    {
        self.version = bump(self.version);
        &mut self.result
    }

    /// Halts the deserializer and the serializer: from now on they ignore
    /// every change.
    pub fn stop(&mut self)
        ensures
            final(self)@ == old(self)@.stop(),
    {
        self.stopped = true;
    }
}

} // verus!
