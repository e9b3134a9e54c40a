use config_sync::config_file::{ConfigResult, ConfigurationFile, SerializerAction};
use config_sync::event::{AccessKind, AccessMode, EventKind};
use config_sync::file_handler::{FileHander, SaverAction, WatcherAction};
use serde_json::{Number, Value};
use std::collections::BTreeMap;

#[derive(Debug, Default, Clone, PartialEq)]
struct ShoppingList {
    items: BTreeMap<String, usize>,
    price: f64,
}

fn parse(text: &str) -> Result<ShoppingList, String> {
    let value: Value = serde_json::from_str(text).map_err(|error| error.to_string())?;
    let fields = value.as_object().ok_or("expected a map")?;
    let entries = fields
        .get("items")
        .ok_or("missing field `items`")?
        .as_object()
        .ok_or("expected a map of items")?;
    let mut items = BTreeMap::new();
    for (name, count) in entries {
        let count = count.as_u64().ok_or("expected a count")?;
        items.insert(name.clone(), count as usize);
    }
    let price = fields
        .get("price")
        .ok_or("missing field `price`")?
        .as_f64()
        .ok_or("expected a price")?;
    Ok(ShoppingList { items, price })
}

fn render(list: &ShoppingList) -> String {
    let mut items = serde_json::Map::new();
    for (name, count) in &list.items {
        items.insert(name.clone(), Value::Number(Number::from(*count as u64)));
    }
    let mut fields = serde_json::Map::new();
    fields.insert(String::from("items"), Value::Object(items));
    fields.insert(
        String::from("price"),
        Value::Number(Number::from_f64(list.price).expect("a finite price")),
    );
    serde_json::to_string(&Value::Object(fields)).expect("a value of plain fields")
}

/// The engine with a file that lives in memory: each method is one turn of
/// one background activity, with the reading, parsing, serializing and
/// writing that the activity's decision asks for.
struct Bench {
    file: FileHander,
    config: ConfigurationFile<ShoppingList>,
    disk: String,
    events: usize,
    writes: usize,
    parses: usize,
}

impl Bench {
    fn start(contents: &str) -> Bench {
        let mut file = FileHander::new(String::from("./test.txt"), String::from(contents));
        let config = ConfigurationFile::new(&mut file, parse(contents));
        let mut bench = Bench {
            file,
            config,
            disk: String::from(contents),
            events: 0,
            writes: 0,
            parses: 0,
        };
        assert!(!bench.settled());
        assert_eq!(bench.serializer(), SerializerAction::Dropped);
        assert!(bench.at_rest());
        bench
    }

    fn external_edit(&mut self, contents: &str) {
        self.disk = String::from(contents);
        self.events += 1;
    }

    fn watcher(&mut self) -> WatcherAction {
        assert!(self.events > 0, "no notification is in flight");
        self.events -= 1;
        let kind = EventKind::Access(AccessKind::Close(AccessMode::Write));
        let action = self.file.file_watcher(kind);
        if action == WatcherAction::Read {
            let read: Result<String, std::fmt::Error> = Ok(self.disk.clone());
            self.file.file_read(read);
        }
        action
    }

    fn saver(&mut self) -> SaverAction {
        let action = self.file.file_saver();
        if action == SaverAction::Write {
            self.disk = String::from(self.file.text());
            self.writes += 1;
            self.events += 1;
        }
        action
    }

    fn deserializer(&mut self) -> bool {
        let pending = self.config.raw_changed(&mut self.file);
        if pending {
            self.parses += 1;
            self.config.deserializer(parse(self.file.text()));
        }
        pending
    }

    fn serializer(&mut self) -> SerializerAction {
        let action = self.config.serializer(&mut self.file);
        if action == SerializerAction::Serialize {
            let text = render(self.config.borrow().get());
            self.file.publish(text);
        }
        action
    }

    fn settled(&self) -> bool {
        self.events == 0
            && !self.file.saver_pending()
            && !self.config.deserializer_pending(&self.file)
            && !self.config.serializer_pending()
    }

    fn at_rest(&self) -> bool {
        self.settled()
            && !self.file.flags().echoed_write
            && !self.file.flags().originated_from_disk
            && self.disk == self.file.text()
    }

    /// One turn of the activity with the given number; says whether the turn
    /// changed anything.
    fn turn(&mut self, activity: usize) -> bool {
        match activity {
            0 => self.events > 0 && {
                self.watcher();
                true
            },
            1 => self.saver() != SaverAction::Idle,
            2 => self.deserializer(),
            _ => self.serializer() != SerializerAction::Idle,
        }
    }

    /// The turns that the digits of `schedule` to base four name; counts the
    /// turns that changed anything.
    fn run(&mut self, mut schedule: usize, turns: usize) -> usize {
        let mut busy = 0;
        for _ in 0..turns {
            if self.turn(schedule % 4) {
                busy += 1;
            }
            schedule /= 4;
        }
        busy
    }

    fn value(&self) -> &ShoppingList {
        self.config.borrow().get()
    }
}

fn list(items: &[(&str, usize)], price: f64) -> ShoppingList {
    ShoppingList {
        items: items.iter().map(|(name, count)| (String::from(*name), *count)).collect(),
        price,
    }
}

#[test]
fn the_codec_of_the_bench_round_trips() {
    let text = r#"{"items":{"apple":1,"banana":2},"price":1.5}"#;
    let parsed = parse(text).unwrap();
    assert_eq!(parsed, list(&[("apple", 1), ("banana", 2)], 1.5));
    assert_eq!(render(&parsed), text);
    assert_eq!(render(&ShoppingList::default()), r#"{"items":{},"price":0.0}"#);
    assert!(parse("not json").is_err());
    assert!(parse(r#"{"items":{}}"#).is_err());
}

#[test]
fn an_external_edit_reaches_the_value_in_ring_order() {
    let mut bench = Bench::start(r#"{"items":{},"price":0.0}"#);
    let edited = r#"{ "price": 2.5, "items": { "pear": 3 } }"#;
    bench.external_edit(edited);
    assert_eq!(bench.watcher(), WatcherAction::Read);
    assert!(bench.deserializer());
    assert_eq!(bench.serializer(), SerializerAction::Dropped);
    assert_eq!(bench.saver(), SaverAction::Write);
    assert_eq!(bench.watcher(), WatcherAction::Suppressed);
    assert!(bench.at_rest());
    assert_eq!(*bench.value(), list(&[("pear", 3)], 2.5));
    assert!(matches!(bench.config.borrow(), ConfigResult::Valid(_)));
    assert_eq!(bench.disk, edited);
    assert_eq!(bench.file.text(), edited);
    assert_eq!(bench.writes, 1);
    assert_eq!(bench.parses, 1);
}

#[test]
fn a_canonical_external_edit_needs_no_write() {
    let mut bench = Bench::start(r#"{"items":{},"price":0.0}"#);
    let edited = r#"{"items":{"pear":3},"price":2.5}"#;
    bench.external_edit(edited);
    assert_eq!(bench.watcher(), WatcherAction::Read);
    assert!(bench.deserializer());
    assert_eq!(bench.saver(), SaverAction::Skipped);
    assert_eq!(bench.serializer(), SerializerAction::Serialize);
    assert!(bench.at_rest());
    assert_eq!(*bench.value(), list(&[("pear", 3)], 2.5));
    assert_eq!(bench.disk, edited);
    assert_eq!(bench.writes, 0);
    assert_eq!(bench.parses, 1);
}

#[test]
fn a_mutation_reaches_the_file_and_its_echo_is_ignored() {
    let mut bench = Bench::start(r#"{"items":{},"price":0.0}"#);
    bench.config.tx().get_mut().price = 4.25;
    assert_eq!(bench.serializer(), SerializerAction::Serialize);
    assert_eq!(bench.saver(), SaverAction::Write);
    assert_eq!(bench.disk, r#"{"items":{},"price":4.25}"#);
    let version = bench.file.version();
    assert_eq!(bench.watcher(), WatcherAction::Suppressed);
    assert_eq!(bench.file.version(), version);
    assert!(bench.deserializer());
    assert_eq!(bench.serializer(), SerializerAction::Dropped);
    assert!(bench.at_rest());
    assert_eq!(bench.disk, r#"{"items":{},"price":4.25}"#);
    assert_eq!(*bench.value(), list(&[], 4.25));
    assert_eq!(bench.writes, 1);
}

#[test]
fn the_same_text_twice_gives_one_cycle() {
    let mut bench = Bench::start(r#"{"items":{},"price":0.0}"#);
    let text = r#"{"items":{"fig":1},"price":0.5}"#;
    assert!(bench.file.publish(String::from(text)));
    assert!(!bench.file.publish(String::from(text)));
    assert!(bench.deserializer());
    assert_eq!(bench.serializer(), SerializerAction::Dropped);
    assert_eq!(bench.saver(), SaverAction::Write);
    assert_eq!(bench.watcher(), WatcherAction::Suppressed);
    assert!(bench.at_rest());
    assert!(!bench.file.publish(String::from(text)));
    assert!(!bench.deserializer());
    assert_eq!(bench.saver(), SaverAction::Idle);
    assert!(bench.at_rest());
    assert_eq!(bench.parses, 1);
    assert_eq!(bench.writes, 1);
}

#[test]
fn a_broken_edit_keeps_the_last_good_value() {
    let mut bench = Bench::start(r#"{"items":{"kiwi":7},"price":3.0}"#);
    assert!(matches!(bench.config.borrow(), ConfigResult::Valid(_)));
    bench.external_edit(r#"{"items":{"kiwi":7},"price":"#);
    assert_eq!(bench.watcher(), WatcherAction::Read);
    assert!(bench.deserializer());
    assert_eq!(bench.serializer(), SerializerAction::Dropped);
    assert_eq!(bench.saver(), SaverAction::Write);
    assert_eq!(bench.watcher(), WatcherAction::Suppressed);
    assert!(bench.at_rest());
    match bench.config.borrow() {
        ConfigResult::Invalid(value, message) => {
            assert_eq!(*value, list(&[("kiwi", 7)], 3.0));
            assert!(!message.is_empty());
        }
        ConfigResult::Valid(_) => panic!("the broken text gave a valid result"),
    }
    assert_eq!(bench.disk, r#"{"items":{"kiwi":7},"price":"#);
}

#[test]
fn two_mutations_and_an_edit_cost_one_write() {
    let mut bench = Bench::start(r#"{"items":{},"price":0.0}"#);
    bench.config.tx().get_mut().items.insert(String::from("plum"), 1);
    bench.config.tx().get_mut().items.insert(String::from("plum"), 2);
    assert_eq!(bench.serializer(), SerializerAction::Serialize);
    assert_eq!(bench.saver(), SaverAction::Write);
    assert_eq!(bench.disk, r#"{"items":{"plum":2},"price":0.0}"#);
    assert_eq!(bench.writes, 1);

    let edited = r#"{"items":{"plum":2,"sloe":9},"price":0.0}"#;
    bench.external_edit(edited);
    assert_eq!(bench.events, 2);
    assert_eq!(bench.watcher(), WatcherAction::Suppressed);
    assert_eq!(bench.file.text(), r#"{"items":{"plum":2},"price":0.0}"#);
    assert_eq!(bench.watcher(), WatcherAction::Read);
    assert_eq!(bench.file.text(), edited);
    assert!(bench.deserializer());
    assert_eq!(bench.saver(), SaverAction::Skipped);
    assert_eq!(bench.serializer(), SerializerAction::Serialize);
    assert!(bench.at_rest());
    assert_eq!(*bench.value(), list(&[("plum", 2), ("sloe", 9)], 0.0));
    assert_eq!(bench.disk, edited);
    assert_eq!(bench.writes, 1);
}

#[test]
fn shopping_list_scenario() {
    let mut bench = Bench::start(r#"{"items":{},"price":0.0}"#);
    assert_eq!(*bench.value(), ShoppingList::default());

    // The application puts an apple on the list.
    *bench.config.tx().get_mut().items.entry(String::from("apple")).or_insert(0) += 1;
    assert_eq!(bench.serializer(), SerializerAction::Serialize);
    assert_eq!(bench.saver(), SaverAction::Write);
    assert_eq!(bench.watcher(), WatcherAction::Suppressed);
    assert!(bench.deserializer());
    assert_eq!(bench.serializer(), SerializerAction::Dropped);
    assert!(bench.at_rest());
    assert_eq!(bench.disk, r#"{"items":{"apple":1},"price":0.0}"#);
    assert_eq!(bench.writes, 1);

    // Somebody edits the file.
    let edited = r#"{"items":{"apple":1,"banana":2},"price":1.5}"#;
    bench.external_edit(edited);
    assert_eq!(bench.watcher(), WatcherAction::Read);
    assert!(bench.deserializer());
    assert_eq!(bench.saver(), SaverAction::Skipped);
    assert_eq!(bench.serializer(), SerializerAction::Serialize);
    assert!(bench.at_rest());
    assert!(matches!(bench.config.borrow(), ConfigResult::Valid(_)));
    assert_eq!(bench.value().items.get("apple"), Some(&1));
    assert_eq!(bench.value().items.get("banana"), Some(&2));
    assert_eq!(bench.value().items.len(), 2);
    assert_eq!(bench.value().price, 1.5);
    assert_eq!(bench.disk, edited);
    assert_eq!(bench.writes, 1);

    // Somebody breaks the file.
    bench.external_edit("not json");
    assert_eq!(bench.watcher(), WatcherAction::Read);
    assert!(bench.deserializer());
    assert_eq!(bench.serializer(), SerializerAction::Dropped);
    match bench.config.borrow() {
        ConfigResult::Invalid(value, message) => {
            assert_eq!(*value, list(&[("apple", 1), ("banana", 2)], 1.5));
            assert!(!message.is_empty());
        }
        ConfigResult::Valid(_) => panic!("the broken text gave a valid result"),
    }
    assert_eq!(bench.disk, "not json");
    assert_eq!(bench.writes, 1);
    // The saver's turn puts the same broken text there again.
    assert_eq!(bench.saver(), SaverAction::Write);
    assert_eq!(bench.watcher(), WatcherAction::Suppressed);
    assert!(bench.at_rest());
    assert_eq!(bench.disk, "not json");
    assert!(matches!(bench.config.borrow(), ConfigResult::Invalid(_, _)));
    assert_eq!(*bench.value(), list(&[("apple", 1), ("banana", 2)], 1.5));
}

#[test]
fn a_settled_engine_stays_as_it_is() {
    for schedule in 0..256 {
        let mut bench = Bench::start(r#"{"items":{"kiwi":7},"price":3.0}"#);
        assert_eq!(bench.run(schedule, 4), 0);
        assert!(bench.at_rest());
        assert_eq!(bench.writes, 0);
        assert_eq!(bench.parses, 0);
        assert_eq!(bench.file.version(), 0);
    }
}

#[test]
fn every_schedule_settles_after_a_canonical_edit() {
    let edited = r#"{"items":{"pear":3},"price":2.5}"#;
    let mut settled = 0;
    for schedule in 0..(1 << 16) {
        let mut bench = Bench::start(r#"{"items":{},"price":0.0}"#);
        bench.external_edit(edited);
        let busy = bench.run(schedule, 8);
        assert!(busy <= 11);
        assert!(bench.writes <= 1);
        assert_eq!(bench.disk, edited);
        if bench.settled() {
            settled += 1;
            assert!(bench.at_rest());
            assert!(matches!(bench.config.borrow(), ConfigResult::Valid(_)));
            assert_eq!(*bench.value(), list(&[("pear", 3)], 2.5));
        }
    }
    assert!(settled > 0);
}

#[test]
fn every_schedule_settles_after_any_edit() {
    let start = r#"{"items":{"kiwi":7},"price":3.0}"#;
    let loose = r#"{ "price": 2.5, "items": { "pear": 3 } }"#;
    let tight = r#"{"items":{"pear":3},"price":2.5}"#;
    let broken = "not json";
    let mut settled = 0;
    for (edited, value, text) in [
        (loose, list(&[("pear", 3)], 2.5), tight),
        (broken, list(&[("kiwi", 7)], 3.0), start),
    ] {
        for schedule in 0..(1 << 20) {
            let mut bench = Bench::start(start);
            bench.external_edit(edited);
            let busy = bench.run(schedule, 10);
            assert!(busy <= 11);
            assert!(bench.writes <= 1);
            if bench.writes == 0 {
                assert_eq!(bench.disk, edited);
            }
            if bench.settled() {
                settled += 1;
                assert!(!bench.file.flags().echoed_write);
                assert!(!bench.file.flags().originated_from_disk);
                assert_eq!(*bench.value(), value);
                assert!(bench.file.text() == edited || bench.file.text() == text);
            }
        }
    }
    assert!(settled > 0);
}

#[test]
fn every_schedule_keeps_a_mutation() {
    let start = r#"{"items":{"kiwi":7},"price":3.0}"#;
    let changed = r#"{"items":{"kiwi":8},"price":3.0}"#;
    let mut written = 0;
    let mut skipped = 0;
    for schedule in 0..(1 << 14) {
        let mut bench = Bench::start(start);
        bench.config.tx().get_mut().items.insert(String::from("kiwi"), 8);
        let busy = bench.run(schedule, 7);
        assert!(busy <= 5);
        assert!(bench.writes <= 1);
        if bench.writes == 1 {
            assert_eq!(bench.disk, changed);
        } else {
            assert_eq!(bench.disk, start);
        }
        if bench.settled() {
            assert!(!bench.file.flags().echoed_write);
            assert!(!bench.file.flags().originated_from_disk);
            assert_eq!(*bench.value(), list(&[("kiwi", 8)], 3.0));
            assert_eq!(bench.file.text(), changed);
            if bench.writes == 1 {
                written += 1;
            } else {
                skipped += 1;
            }
        }
    }
    assert!(written > 0);
    assert!(skipped > 0);
}

#[test]
fn an_unsettled_engine_can_go_on() {
    let mut bench = Bench::start(r#"{"items":{},"price":0.0}"#);
    bench.external_edit(r#"{"items":{"pear":3},"price":2.5}"#);
    let mut turns = 0;
    while !bench.settled() {
        let progressed = (0..4).any(|activity| bench.turn(activity));
        assert!(progressed);
        turns += 1;
        assert!(turns <= 11);
    }
    assert!(bench.at_rest());
}
