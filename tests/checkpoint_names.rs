use gmod::checkpoint::{address_text, checkpoint_timer_name, timer_name_from, TIMER_RANDOM_LEN};

#[test]
fn address_text_matches_pointer_formatting() {
    for a in [0usize, 1, 15, 16, 255, 0xdead_beef, usize::MAX] {
        assert_eq!(address_text(a), format!("{:#x}", a));
    }
    assert_eq!(address_text(0x7f3a_0010), "0x7f3a0010");
}

#[test]
fn timer_name_layout() {
    assert_eq!(timer_name_from("abcDEF0123", 0x1f40), "_GOOBIE_LUA_THINK_abcDEF0123_0x1f40");
}

#[test]
fn fresh_timer_names_carry_ten_random_alphanumerics() {
    let name = checkpoint_timer_name(0xabc);
    let prefix = "_GOOBIE_LUA_THINK_";
    assert!(name.starts_with(prefix));
    assert!(name.ends_with("_0xabc"));
    let random = &name[prefix.len()..name.len() - "_0xabc".len()];
    assert_eq!(random.len(), TIMER_RANDOM_LEN);
    assert!(random.chars().all(|c| c.is_ascii_alphanumeric()));
    let names: Vec<String> = (0..8).map(|_| checkpoint_timer_name(0xabc)).collect();
    assert!(names.iter().any(|n| *n != names[0]));
}
