use libsensors_rs::chips::{BusId, BusType, Chip, FeatureIterator};
use libsensors_rs::error::LibSensorsError;
use libsensors_rs::feature::{Feature, FeatureType, SubfeatureIterator};
use libsensors_rs::ffi::{
    sensors_bus_id, sensors_chip_name, sensors_feature, sensors_subfeature, Call,
};
use libsensors_rs::subfeature::Subfeature;
use libsensors_rs::utils::{Pointer, Ref};
use libsensors_rs::{LibSensors, LibrarySingleton};

const CHIP_BASE: usize = 0x10_000;
const FEATURE_BASE: usize = 0x20_000;
const SUBFEATURE_BASE: usize = 0x30_000;
const RECORD: usize = 0x40;

fn open() -> LibSensors {
    let mut slot = LibrarySingleton::new();
    let claim = slot.claim().unwrap();
    let library: libloading::Library = libloading::os::unix::Library::this().into();
    LibSensors::init(&mut slot, claim, Ok((library, 0))).unwrap()
}

fn text(addr: usize, bytes: &[u8]) -> Pointer<Vec<u8>> {
    Pointer::new(addr, 1, Some(bytes.to_vec())).unwrap()
}

fn no_text() -> Pointer<Vec<u8>> {
    Pointer::new(0, 1, None).unwrap()
}

fn null<T>() -> Pointer<T> {
    Pointer::new(0, 8, None).unwrap()
}

/// A stand-in for the native library: `chips` chips, each with `features`
/// features, each with `subfeatures` subfeatures. Each cursor call answers
/// as the native one does: the record at the cursor and the cursor moved
/// on, or a null pointer.
struct Mock {
    chips: i32,
    features: i32,
    subfeatures: i32,
}

impl Mock {
    fn get_detected_chips(&self, cursor: i32) -> (i32, Pointer<sensors_chip_name>) {
        if cursor >= self.chips {
            return (cursor, null());
        }
        let addr = CHIP_BASE + cursor as usize * RECORD;
        let record = sensors_chip_name {
            prefix: text(addr + 0x1000, b"coretemp"),
            bus: sensors_bus_id { type_: 1, nr: cursor as i16 },
            addr: cursor,
            path: addr + 0x2000,
        };
        (cursor + 1, Pointer::new(addr, 8, Some(record)).unwrap())
    }

    fn get_features(&self, chip: usize, cursor: i32) -> (i32, Pointer<sensors_feature>) {
        assert!(chip >= CHIP_BASE && chip < FEATURE_BASE);
        if cursor >= self.features {
            return (cursor, null());
        }
        let addr = FEATURE_BASE + cursor as usize * RECORD;
        let record = sensors_feature {
            name: text(addr + 0x1000, format!("temp{}", cursor + 1).as_bytes()),
            number: cursor,
            type_: 0x02,
        };
        (cursor + 1, Pointer::new(addr, 8, Some(record)).unwrap())
    }

    fn get_all_subfeatures(
        &self,
        chip: usize,
        feature: usize,
        cursor: i32,
    ) -> (i32, Pointer<sensors_subfeature>) {
        assert!(chip >= CHIP_BASE && chip < FEATURE_BASE);
        assert!(feature >= FEATURE_BASE && feature < SUBFEATURE_BASE);
        if cursor >= self.subfeatures {
            return (cursor, null());
        }
        let addr = SUBFEATURE_BASE + cursor as usize * RECORD;
        let record = sensors_subfeature {
            name: text(addr + 0x1000, b"temp1_input"),
            number: 10 + cursor,
            type_: 0x200 + cursor as u32,
            mapping: 0,
            flags: 1,
        };
        (cursor + 1, Pointer::new(addr, 8, Some(record)).unwrap())
    }
}

fn all_chips<'lib>(lib: &'lib LibSensors, mock: &Mock) -> Vec<Chip<'lib>> {
    let mut chips = lib.get_chips(Ok(())).unwrap();
    let mut found = Vec::new();
    loop {
        let cursor = match chips.call() {
            Call::GetDetectedChips { cursor } => cursor,
            other => panic!("unexpected call {:?}", other),
        };
        let (after, fetched) = mock.get_detected_chips(cursor);
        match chips.next(after, fetched) {
            Some(chip) => found.push(chip.unwrap()),
            None => return found,
        }
    }
}

fn all_features<'lib>(chip: &Chip<'lib>, mock: &Mock) -> Vec<Feature<'lib>> {
    let mut features = chip.get_features(Ok(())).unwrap();
    let mut found = Vec::new();
    loop {
        let (at, cursor) = match features.call() {
            Call::GetFeatures { chip, cursor } => (chip, cursor),
            other => panic!("unexpected call {:?}", other),
        };
        assert_eq!(at, chip.address());
        let (after, fetched) = mock.get_features(at, cursor);
        match features.next(after, fetched) {
            Some(feature) => found.push(feature.unwrap()),
            None => return found,
        }
    }
}

fn all_subfeatures<'lib>(feature: &Feature<'lib>, mock: &Mock) -> Vec<Subfeature<'lib>> {
    let mut subfeatures = feature.get_subfeatures(Ok(())).unwrap();
    let mut found = Vec::new();
    loop {
        let (chip, at, cursor) = match subfeatures.call() {
            Call::GetAllSubfeatures { chip, feature, cursor } => (chip, feature, cursor),
            other => panic!("unexpected call {:?}", other),
        };
        assert_eq!(at, feature.address());
        let (after, fetched) = mock.get_all_subfeatures(chip, at, cursor);
        match subfeatures.next(after, fetched) {
            Some(subfeature) => found.push(subfeature),
            None => return found,
        }
    }
}

#[test]
fn enumeration_yields_every_record_once() {
    let lib = open();
    let mock = Mock { chips: 3, features: 4, subfeatures: 5 };
    let chips = all_chips(&lib, &mock);
    assert_eq!(chips.len(), 3);
    for (i, chip) in chips.iter().enumerate() {
        assert_eq!(chip.address(), CHIP_BASE + i * RECORD);
        assert_eq!(chip.get_bus_id(), BusId { type_: BusType::ISA, nr: i as i16 });
        assert_eq!(chip.get_prefix().as_slice(), b"coretemp");
        let features = all_features(chip, &mock);
        assert_eq!(features.len(), 4);
        for (j, feature) in features.iter().enumerate() {
            assert_eq!(feature.address(), FEATURE_BASE + j * RECORD);
            assert_eq!(feature.get_type(), FeatureType::Temp);
            assert!(feature.has_name());
            assert_eq!(feature.get_name(), &format!("temp{}", j + 1).into_bytes());
            let subfeatures = all_subfeatures(feature, &mock);
            assert_eq!(subfeatures.len(), 5);
            for subfeature in subfeatures.iter() {
                assert_eq!(subfeature.get_name().unwrap().as_slice(), b"temp1_input");
            }
        }
    }
}

#[test]
fn enumeration_of_nothing_yields_nothing() {
    let lib = open();
    let mock = Mock { chips: 0, features: 0, subfeatures: 0 };
    assert_eq!(all_chips(&lib, &mock).len(), 0);
    let mock = Mock { chips: 1, features: 0, subfeatures: 0 };
    let chips = all_chips(&lib, &mock);
    assert_eq!(chips.len(), 1);
    assert_eq!(all_features(&chips[0], &mock).len(), 0);
    let mock = Mock { chips: 1, features: 1, subfeatures: 0 };
    let features = all_features(&chips[0], &mock);
    assert_eq!(features.len(), 1);
    assert_eq!(all_subfeatures(&features[0], &mock).len(), 0);
}

#[test]
fn enumeration_ends_at_the_first_null() {
    let lib = open();
    let mock = Mock { chips: 2, features: 0, subfeatures: 0 };
    let mut chips = lib.get_chips(Ok(())).unwrap();
    assert_eq!(chips.call(), Call::GetDetectedChips { cursor: 0 });
    let (after, fetched) = mock.get_detected_chips(0);
    assert!(chips.next(after, fetched).is_some());
    assert_eq!(chips.call(), Call::GetDetectedChips { cursor: 1 });
    let (after, fetched) = mock.get_detected_chips(1);
    assert!(chips.next(after, fetched).is_some());
    assert_eq!(chips.call(), Call::GetDetectedChips { cursor: 2 });
    let (after, fetched) = mock.get_detected_chips(2);
    assert!(chips.next(after, fetched).is_none());
    assert_eq!(chips.call(), Call::GetDetectedChips { cursor: 2 });
}

#[test]
fn iterator_takes_the_cursor_from_the_native_side() {
    let lib = open();
    let mut features = FeatureIterator::new(&lib, (), CHIP_BASE);
    assert_eq!(features.call(), Call::GetFeatures { chip: CHIP_BASE, cursor: 0 });
    let record = sensors_feature { name: text(0x700, b"in0"), number: 0, type_: 0 };
    let fetched = Pointer::new(FEATURE_BASE, 8, Some(record)).unwrap();
    assert!(features.next(17, fetched).is_some());
    assert_eq!(features.call(), Call::GetFeatures { chip: CHIP_BASE, cursor: 17 });
    let mut subfeatures = SubfeatureIterator::new((), CHIP_BASE, FEATURE_BASE, &lib);
    assert_eq!(
        subfeatures.call(),
        Call::GetAllSubfeatures { chip: CHIP_BASE, feature: FEATURE_BASE, cursor: 0 }
    );
    assert!(subfeatures.next(9, null()).is_none());
    assert_eq!(
        subfeatures.call(),
        Call::GetAllSubfeatures { chip: CHIP_BASE, feature: FEATURE_BASE, cursor: 9 }
    );
}

#[test]
fn iterator_keeps_its_entry_point() {
    let lib = open();
    let mut chips = lib.get_chips(Ok("sensors_get_detected_chips")).unwrap();
    assert_eq!(*chips.entry_point(), "sensors_get_detected_chips");
    assert!(chips.next(1, null()).is_none());
    assert_eq!(*chips.entry_point(), "sensors_get_detected_chips");
    let features = FeatureIterator::new(&lib, 7u8, CHIP_BASE);
    assert_eq!(*features.entry_point(), 7);
    let subfeatures = SubfeatureIterator::new(9u8, CHIP_BASE, FEATURE_BASE, &lib);
    assert_eq!(*subfeatures.entry_point(), 9);
}

#[test]
fn get_chips_without_the_symbol_is_a_loading_error() {
    let lib = open();
    assert!(matches!(
        lib.get_chips::<()>(Err(libloading::Error::DlSymUnknown)),
        Err(LibSensorsError::Loading(libloading::Error::DlSymUnknown))
    ));
}

#[test]
fn get_chip_decodes_one_record() {
    let lib = open();
    let mock = Mock { chips: 2, features: 0, subfeatures: 0 };
    assert_eq!(lib.get_chip_call(1), Call::GetDetectedChips { cursor: 1 });
    let (_, fetched) = mock.get_detected_chips(1);
    let chip = lib.get_chip(Ok(fetched)).unwrap().unwrap();
    assert_eq!(chip.address(), CHIP_BASE + RECORD);
    assert_eq!(chip.get_bus_id(), BusId { type_: BusType::ISA, nr: 1 });
    let (_, fetched) = mock.get_detected_chips(2);
    assert!(matches!(lib.get_chip(Ok(fetched)), Ok(None)));
    assert!(matches!(
        lib.get_chip(Err(libloading::Error::DlSymUnknown)),
        Err(LibSensorsError::Loading(libloading::Error::DlSymUnknown))
    ));
}

#[test]
fn chip_with_wildcard_bus_is_turned_down() {
    let lib = open();
    for nr in [-1i16, -2] {
        let record = sensors_chip_name {
            prefix: text(0x100, b"nct6775"),
            bus: sensors_bus_id { type_: 1, nr },
            addr: 0x290,
            path: 0,
        };
        let made = Chip::new(&lib, Ref { addr: CHIP_BASE, value: record });
        assert!(matches!(made, Err(LibSensorsError::UnexpectedWildcard(v)) if v == nr as i64));
    }
    let record = sensors_chip_name {
        prefix: text(0x100, b"nct6775"),
        bus: sensors_bus_id { type_: -1, nr: 0 },
        addr: 0x290,
        path: 0,
    };
    let fetched = Pointer::new(CHIP_BASE, 8, Some(record)).unwrap();
    assert!(matches!(
        lib.get_chip(Ok(fetched)),
        Err(LibSensorsError::UnexpectedWildcard(-1))
    ));
}

#[test]
fn enumeration_goes_on_after_a_chip_that_does_not_decode() {
    let lib = open();
    let mut chips = lib.get_chips(Ok(())).unwrap();
    let bad = sensors_chip_name {
        prefix: text(0x100, b"nct6775"),
        bus: sensors_bus_id { type_: 1, nr: -1 },
        addr: 0x290,
        path: 0,
    };
    let first = chips.next(1, Pointer::new(CHIP_BASE, 8, Some(bad)).unwrap());
    assert!(matches!(first, Some(Err(LibSensorsError::UnexpectedWildcard(-1)))));
    let good = sensors_chip_name {
        prefix: text(0x100, b"nct6775"),
        bus: sensors_bus_id { type_: 1, nr: 0 },
        addr: 0x290,
        path: 0,
    };
    let second = chips.next(2, Pointer::new(CHIP_BASE + RECORD, 8, Some(good)).unwrap());
    assert!(matches!(second, Some(Ok(_))));
    assert!(chips.next(2, null()).is_none());
}

#[test]
fn chip_adapter_name() {
    let lib = open();
    let mock = Mock { chips: 1, features: 0, subfeatures: 0 };
    let chip = all_chips(&lib, &mock).pop().unwrap();
    assert_eq!(
        chip.get_name_call(),
        Call::GetAdapterName { bus: sensors_bus_id { type_: 1, nr: 0 } }
    );
    let name = chip.get_name(Ok(text(0x900, b"ISA adapter"))).unwrap();
    assert_eq!(name, Some(b"ISA adapter".to_vec()));
    assert!(matches!(chip.get_name(Ok(no_text())), Ok(None)));
    assert!(matches!(
        chip.get_name(Err(libloading::Error::DlSymUnknown)),
        Err(LibSensorsError::Loading(libloading::Error::DlSymUnknown))
    ));
}

#[test]
fn get_feature_decodes_one_record() {
    let lib = open();
    let mock = Mock { chips: 1, features: 2, subfeatures: 0 };
    let chip = all_chips(&lib, &mock).pop().unwrap();
    assert_eq!(chip.get_feature_call(1), Call::GetFeatures { chip: CHIP_BASE, cursor: 1 });
    let (_, fetched) = mock.get_features(chip.address(), 1);
    let feature = chip.get_feature(Ok(fetched)).unwrap().unwrap();
    assert_eq!(feature.address(), FEATURE_BASE + RECORD);
    assert_eq!(feature.get_type(), FeatureType::Temp);
    assert!(matches!(chip.get_feature(Ok(null())), Ok(None)));
    assert!(matches!(
        chip.get_feature(Err(libloading::Error::DlSymUnknown)),
        Err(LibSensorsError::Loading(libloading::Error::DlSymUnknown))
    ));
    assert!(matches!(
        chip.get_features::<()>(Err(libloading::Error::DlSymUnknown)),
        Err(LibSensorsError::Loading(libloading::Error::DlSymUnknown))
    ));
}

#[test]
fn feature_with_unknown_type_is_turned_down() {
    let lib = open();
    for code in [0x7fff_ffffu32, 0x08, 0x13] {
        let record = sensors_feature { name: text(0x700, b"mystery1"), number: 0, type_: code };
        let made = Feature::new(&lib, CHIP_BASE, Ref { addr: FEATURE_BASE, value: record });
        assert!(
            matches!(made, Err(LibSensorsError::UnexpectedWildcard(v)) if v == code as i64)
        );
    }
    let mock = Mock { chips: 1, features: 0, subfeatures: 0 };
    let chip = all_chips(&lib, &mock).pop().unwrap();
    let record = sensors_feature { name: text(0x700, b"mystery1"), number: 0, type_: 0x1a };
    let fetched = Pointer::new(FEATURE_BASE, 8, Some(record)).unwrap();
    assert!(matches!(
        chip.get_feature(Ok(fetched)),
        Err(LibSensorsError::UnexpectedWildcard(0x1a))
    ));
}

#[test]
fn feature_without_a_name_is_still_a_feature() {
    let lib = open();
    let record = sensors_feature { name: no_text(), number: 3, type_: 0x01 };
    let made = Feature::new(&lib, CHIP_BASE, Ref { addr: FEATURE_BASE, value: record }).unwrap();
    assert!(!made.has_name());
    assert_eq!(made.get_type(), FeatureType::Fan);
    assert_eq!(made.address(), FEATURE_BASE);
}

#[test]
fn subfeature_lookups() {
    let lib = open();
    let mock = Mock { chips: 1, features: 1, subfeatures: 2 };
    let chip = all_chips(&lib, &mock).pop().unwrap();
    let feature = all_features(&chip, &mock).pop().unwrap();
    assert_eq!(
        feature.get_subfeature_by_type_call(0x200),
        Call::GetSubfeature { chip: CHIP_BASE, feature: FEATURE_BASE, type_: 0x200 }
    );
    assert_eq!(
        feature.get_subfeature_call(1),
        Call::GetAllSubfeatures { chip: CHIP_BASE, feature: FEATURE_BASE, cursor: 1 }
    );
    let (_, fetched) = mock.get_all_subfeatures(chip.address(), feature.address(), 1);
    let found = feature.get_subfeature_by_type(Ok(fetched)).unwrap().unwrap();
    assert_eq!(
        found.get_value_call(),
        Call::GetValue { chip: CHIP_BASE, number: 11, slot: 0x7ff8_0000_0000_0000 }
    );
    assert!(matches!(feature.get_subfeature_by_type(Ok(null())), Ok(None)));
    assert!(matches!(
        feature.get_subfeature_by_type(Err(libloading::Error::DlSymUnknown)),
        Err(LibSensorsError::Loading(libloading::Error::DlSymUnknown))
    ));
    let (_, fetched) = mock.get_all_subfeatures(chip.address(), feature.address(), 0);
    let raw = feature.get_subfeature(Ok(fetched)).unwrap().unwrap();
    assert_eq!(raw.addr, SUBFEATURE_BASE);
    assert_eq!(raw.value.number, 10);
    assert!(matches!(feature.get_subfeature(Ok(null())), Ok(None)));
    assert!(matches!(
        feature.get_subfeature(Err(libloading::Error::DlSymUnknown)),
        Err(LibSensorsError::Loading(libloading::Error::DlSymUnknown))
    ));
    assert!(matches!(
        feature.get_subfeatures::<()>(Err(libloading::Error::DlSymUnknown)),
        Err(LibSensorsError::Loading(libloading::Error::DlSymUnknown))
    ));
}
