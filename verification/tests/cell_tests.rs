use std::cell::Cell;

use typst_py::cell::SlotCell;
use typst_py::error::FileError;

fn upper(data: Vec<u8>, prev: Option<Vec<u8>>) -> Result<Vec<u8>, FileError> {
    let mut out: Vec<u8> = prev.unwrap_or_default();
    out.clear();
    out.extend(data.iter().map(|b| b.to_ascii_uppercase()));
    Ok(out)
}

#[test]
fn new_cell_is_empty() {
    let cell: SlotCell<Vec<u8>> = SlotCell::new();
    assert!(cell.data.is_none());
    assert_eq!(cell.fingerprint, 0);
    assert!(!cell.accessed);
    assert!(cell.get().is_none());
    assert!(cell.current().is_none());
}

#[test]
fn get_or_init_loads_once_per_compilation() {
    let loads = Cell::new(0);
    let mut cell: SlotCell<Vec<u8>> = SlotCell::new();
    for _ in 0..5 {
        let served = cell.get_or_init(
            || {
                loads.set(loads.get() + 1);
                Ok(b"abc".to_vec())
            },
            upper,
        );
        assert_eq!(served, Ok(b"ABC".to_vec()));
    }
    assert_eq!(loads.get(), 1);
    assert!(cell.accessed);
    assert_eq!(cell.get(), Some(&Ok(b"ABC".to_vec())));
}

#[test]
fn cached_cell_ignores_a_changed_store() {
    let mut cell: SlotCell<Vec<u8>> = SlotCell::new();
    assert_eq!(cell.get_or_init(|| Ok(b"old".to_vec()), upper), Ok(b"OLD".to_vec()));
    let served = cell.get_or_init(|| Ok(b"new".to_vec()), upper);
    assert_eq!(served, Ok(b"OLD".to_vec()));
}

#[test]
fn reset_keeps_data_and_fingerprint() {
    let mut cell: SlotCell<Vec<u8>> = SlotCell::new();
    cell.get_or_init(|| Ok(b"abc".to_vec()), upper).unwrap();
    let fingerprint = cell.fingerprint;
    cell.reset();
    assert!(!cell.accessed);
    assert_eq!(cell.fingerprint, fingerprint);
    assert_eq!(cell.get(), Some(&Ok(b"ABC".to_vec())));
    assert!(cell.current().is_none());
}

#[test]
fn unchanged_content_is_not_processed_again() {
    let processed = Cell::new(0);
    let loads = Cell::new(0);
    let mut cell: SlotCell<Vec<u8>> = SlotCell::new();
    for _ in 0..3 {
        let served = cell.get_or_init(
            || {
                loads.set(loads.get() + 1);
                Ok(b"same".to_vec())
            },
            |data, prev| {
                processed.set(processed.get() + 1);
                upper(data, prev)
            },
        );
        assert_eq!(served, Ok(b"SAME".to_vec()));
        cell.reset();
    }
    assert_eq!(loads.get(), 3);
    assert_eq!(processed.get(), 1);
}

#[test]
fn changed_content_is_processed_with_the_previous_value() {
    let mut cell: SlotCell<Vec<u8>> = SlotCell::new();
    cell.get_or_init(|| Ok(b"one".to_vec()), upper).unwrap();
    let first = cell.fingerprint;
    cell.reset();
    let served = cell.get_or_init(
        || Ok(b"two".to_vec()),
        |data, prev| {
            assert_eq!(prev, Some(b"ONE".to_vec()));
            upper(data, prev)
        },
    );
    assert_eq!(served, Ok(b"TWO".to_vec()));
    assert_ne!(cell.fingerprint, first);
    assert_ne!(cell.fingerprint, 0);
    assert_eq!(cell.get(), Some(&Ok(b"TWO".to_vec())));
}

#[test]
fn fingerprint_tells_contents_apart() {
    let mut a: SlotCell<Vec<u8>> = SlotCell::new();
    let mut b: SlotCell<Vec<u8>> = SlotCell::new();
    let mut c: SlotCell<Vec<u8>> = SlotCell::new();
    a.update(Ok(b"alpha".to_vec()), upper).unwrap();
    b.update(Ok(b"beta".to_vec()), upper).unwrap();
    c.update(Ok(b"alpha".to_vec()), upper).unwrap();
    assert_ne!(a.fingerprint, b.fingerprint);
    assert_eq!(a.fingerprint, c.fingerprint);
}

#[test]
fn load_failure_is_stored_and_fingerprinted() {
    let processed = Cell::new(0);
    let mut cell: SlotCell<Vec<u8>> = SlotCell::new();
    for _ in 0..2 {
        let served = cell.get_or_init(
            || Err(FileError::NotFound("/project/gone.typ".to_string())),
            |data, prev| {
                processed.set(processed.get() + 1);
                upper(data, prev)
            },
        );
        assert_eq!(served, Err(FileError::NotFound("/project/gone.typ".to_string())));
        assert_ne!(cell.fingerprint, 0);
        cell.reset();
    }
    assert_eq!(processed.get(), 0);
    assert_eq!(
        cell.get(),
        Some(&Err(FileError::NotFound("/project/gone.typ".to_string())))
    );
}

#[test]
fn failure_does_not_become_a_hint() {
    let mut cell: SlotCell<Vec<u8>> = SlotCell::new();
    cell.get_or_init(|| Err(FileError::IsDirectory), upper).unwrap_err();
    cell.reset();
    let served = cell.get_or_init(
        || Ok(b"now".to_vec()),
        |data, prev| {
            assert_eq!(prev, None);
            upper(data, prev)
        },
    );
    assert_eq!(served, Ok(b"NOW".to_vec()));
}

#[test]
fn processing_failure_is_stored() {
    let mut cell: SlotCell<Vec<u8>> = SlotCell::new();
    let served = cell.get_or_init(|| Ok(vec![0xff]), |_, _| Err(FileError::InvalidUtf8));
    assert_eq!(served, Err(FileError::InvalidUtf8));
    assert_eq!(cell.get(), Some(&Err(FileError::InvalidUtf8)));
    let again = cell.get_or_init(|| Ok(b"fine".to_vec()), upper);
    assert_eq!(again, Err(FileError::InvalidUtf8));
}

#[test]
fn init_fills_and_marks_the_cell() {
    let mut cell: SlotCell<Vec<u8>> = SlotCell::new();
    cell.init(b"given".to_vec(), 42);
    assert!(cell.accessed);
    assert_eq!(cell.fingerprint, 42);
    let served = cell.get_or_init(|| unreachable!("an initialized cell loads nothing"), upper);
    assert_eq!(served, Ok(b"given".to_vec()));
}

#[test]
fn update_takes_in_what_was_loaded() {
    let mut cell: SlotCell<Vec<u8>> = SlotCell::new();
    assert_eq!(cell.update(Ok(b"x".to_vec()), upper), Ok(b"X".to_vec()));
    assert!(cell.accessed);
    let kept = cell.update(Ok(b"x".to_vec()), |_, _| unreachable!("nothing changed"));
    assert_eq!(kept, Ok(b"X".to_vec()));
}
