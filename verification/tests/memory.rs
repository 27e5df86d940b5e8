use mara_core::memory::{MaraMemory, MemoryKind, MemoryValue, RecordingMemory};
use mara_core::vocab::Id;

#[test]
fn read_gives_back_the_last_write() {
    let mut memory = MaraMemory::new();
    let id = Id::new("entry");
    assert_eq!(memory.get_temp(id, MemoryKind::Flag), None);
    memory.set_temp(id, MemoryValue::Flag(true));
    assert_eq!(memory.get_temp(id, MemoryKind::Flag), Some(MemoryValue::Flag(true)));
    memory.set_temp(id, MemoryValue::Flag(false));
    assert_eq!(memory.get_temp(id, MemoryKind::Flag), Some(MemoryValue::Flag(false)));
}

#[test]
fn kinds_under_one_id_are_kept_apart() {
    let mut memory = MaraMemory::new();
    let id = Id::new("entry");
    memory.set_temp(id, MemoryValue::Flag(true));
    memory.set_temp(id, MemoryValue::Pass(4));
    memory.set_temp(id, MemoryValue::Key(Id::new("k")));
    assert_eq!(memory.get_temp(id, MemoryKind::Flag), Some(MemoryValue::Flag(true)));
    assert_eq!(memory.get_temp(id, MemoryKind::Pass), Some(MemoryValue::Pass(4)));
    assert_eq!(memory.get_temp(id, MemoryKind::Key), Some(MemoryValue::Key(Id::new("k"))));
    assert_eq!(memory.get_temp(id, MemoryKind::Index), None);
}

#[test]
fn lanes_are_independent() {
    let mut memory: RecordingMemory = MaraMemory::new();
    let id = Id::new("entry");
    memory.set_persisted(id, MemoryValue::Index(3));
    assert_eq!(memory.get_temp(id, MemoryKind::Index), None);
    assert_eq!(memory.get_persisted(id, MemoryKind::Index), Some(MemoryValue::Index(3)));
    memory.set_temp(id, MemoryValue::Index(9));
    assert_eq!(memory.get_persisted(id, MemoryKind::Index), Some(MemoryValue::Index(3)));
}

#[test]
fn removal_drops_only_that_entry() {
    let mut memory = MaraMemory::new();
    let a = Id::new("a");
    let b = Id::new("b");
    memory.set_temp(a, MemoryValue::Pass(1));
    memory.set_temp(b, MemoryValue::Pass(2));
    memory.set_temp(a, MemoryValue::Flag(true));
    memory.remove_temp(a, MemoryKind::Pass);
    assert_eq!(memory.get_temp(a, MemoryKind::Pass), None);
    assert_eq!(memory.get_temp(a, MemoryKind::Flag), Some(MemoryValue::Flag(true)));
    assert_eq!(memory.get_temp(b, MemoryKind::Pass), Some(MemoryValue::Pass(2)));
    memory.remove_temp(a, MemoryKind::Pass);
    assert_eq!(memory.get_temp(b, MemoryKind::Pass), Some(MemoryValue::Pass(2)));
}
