use bwlaunch::{GameTable, GameTableAccess, GAME_TABLE_SIZE};

/// Byte image of a table whose slot `i` holds `slots[i]` as
/// (process id, connected, keep-alive time).
fn image(slots: [(u32, bool, u32); 8]) -> Vec<u8> {
    let mut bytes = Vec::new();
    for (pid, connected, keep_alive) in slots {
        bytes.extend_from_slice(&pid.to_le_bytes());
        bytes.extend_from_slice(&[connected as u8, 0, 0, 0]);
        bytes.extend_from_slice(&keep_alive.to_le_bytes());
    }
    bytes
}

/// A table with `k` reserved slots; the rest alternate between empty and
/// connected.
fn table_with_reserved(k: usize) -> Vec<u8> {
    let mut slots = [(0u32, false, 0u32); 8];
    for (i, slot) in slots.iter_mut().enumerate() {
        *slot = if i < k {
            (100 + i as u32, false, 0)
        } else if i % 2 == 0 {
            (0, false, 0)
        } else {
            (200 + i as u32, true, 7)
        };
    }
    image(slots)
}

#[test]
fn free_slot_follows_reserved_count() {
    for k in 0..=8 {
        let bytes = table_with_reserved(k);
        let mut access = GameTableAccess::new();
        access.record(Some(bytes.as_slice()));
        assert_eq!(access.has_free_slot(), k > 0, "k = {}", k);
        assert_eq!(access.all_slots_filled(), k == 0, "k = {}", k);
    }
}

#[test]
fn unreadable_table_reports_neither() {
    let mut access = GameTableAccess::new();
    assert!(!access.has_free_slot());
    assert!(!access.all_slots_filled());
    assert!(access.get_game_table().is_none());
    access.record(None);
    assert!(!access.has_free_slot());
    assert!(!access.all_slots_filled());
}

#[test]
fn image_of_wrong_size_is_unreadable() {
    let mut bytes = table_with_reserved(3);
    bytes.push(0);
    let mut access = GameTableAccess::new();
    access.record(Some(bytes.as_slice()));
    assert!(access.get_game_table().is_none());
    assert!(!access.has_free_slot());
    assert!(!access.all_slots_filled());
    assert!(GameTable::from_bytes(&bytes[..GAME_TABLE_SIZE - 1]).is_none());
}

#[test]
fn decoding_reads_little_endian_fields() {
    let mut slots = [(0u32, false, 0u32); 8];
    slots[2] = (0x0102_0304, true, 0xA0B0_C0D0);
    slots[7] = (0xFFFF_FFFF, false, 1);
    let table = GameTable::from_bytes(&image(slots)).unwrap();
    let g = table.game_instances[2];
    assert_eq!(g.server_process_id, 0x0102_0304);
    assert!(g.is_connected);
    assert_eq!(g.last_keep_alive_time, 0xA0B0_C0D0);
    let g = table.game_instances[7];
    assert_eq!(g.server_process_id, 0xFFFF_FFFF);
    assert!(!g.is_connected);
    assert_eq!(g.last_keep_alive_time, 1);
    assert!(table.any_reserved());
}

#[test]
fn connected_slots_are_not_free() {
    let bytes = image([(5, true, 1); 8]);
    let mut access = GameTableAccess::new();
    access.record(Some(bytes.as_slice()));
    assert!(!access.has_free_slot());
    assert!(access.all_slots_filled());
    // A later snapshot replaces the earlier one.
    access.record(Some(table_with_reserved(1).as_slice()));
    assert!(access.has_free_slot());
    access.record(None);
    assert!(!access.has_free_slot());
    assert!(!access.all_slots_filled());
}
