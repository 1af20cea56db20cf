use lib::caps::{
    available_caps, cap_names, help_cap_list, raised_count, required_caps, setcap_spec,
    unavailable_caps, BoundingSet,
};

const ALL_NAMES: &str = "cap_chown,cap_dac_override,cap_dac_read_search,cap_fowner,cap_fsetid,cap_kill,cap_setgid,cap_setuid,cap_setpcap,cap_net_bind_service,cap_net_admin,cap_net_raw,cap_sys_chroot,cap_sys_ptrace,cap_sys_admin,cap_sys_resource,cap_mknod,cap_audit_write,cap_setfcap";

fn full_set() -> BoundingSet {
    BoundingSet { present: vec![true; 41] }
}

fn set_of(numbers: &[usize]) -> BoundingSet {
    let mut present = vec![false; 41];
    for n in numbers {
        present[*n] = true;
    }
    BoundingSet { present }
}

#[test]
fn required_caps_table() {
    let caps = required_caps();
    assert_eq!(caps.len(), 19);
    assert_eq!(caps[0], ("cap_chown", 0));
    assert_eq!(caps[9], ("cap_net_bind_service", 10));
    assert_eq!(caps[14], ("cap_sys_admin", 21));
    assert_eq!(caps[18], ("cap_setfcap", 31));
    let mut numbers: Vec<i32> = caps.iter().map(|c| c.1).collect();
    numbers.dedup();
    assert_eq!(numbers.len(), 19);
}

#[test]
fn cap_names_lists_every_required_capability() {
    assert_eq!(cap_names(), ALL_NAMES);
}

#[test]
fn help_cap_list_separates_with_comma_and_space() {
    assert_eq!(help_cap_list(), ALL_NAMES.replace(',', ", "));
}

#[test]
fn bounding_set_contains() {
    let b = set_of(&[0, 21]);
    assert!(b.contains(0));
    assert!(b.contains(21));
    assert!(!b.contains(1));
    assert!(!b.contains(-1));
    assert!(!b.contains(41));
    assert!(!b.contains(1000));
    assert!(!BoundingSet { present: vec![] }.contains(0));
}

#[test]
fn everything_available_in_full_bounding_set() {
    let b = full_set();
    assert_eq!(available_caps(&b), required_caps());
    assert!(unavailable_caps(&b).is_empty());
    assert_eq!(setcap_spec(&b), Some(format!("{}+eip", ALL_NAMES)));
}

#[test]
fn nothing_available_in_empty_bounding_set() {
    let b = BoundingSet { present: vec![] };
    assert!(available_caps(&b).is_empty());
    assert_eq!(unavailable_caps(&b).len(), 19);
    assert_eq!(unavailable_caps(&b).join(","), ALL_NAMES);
    assert_eq!(setcap_spec(&b), None);
}

#[test]
fn partial_bounding_set_splits_the_list() {
    // A container without cap_sys_admin (21) and cap_net_admin (12).
    let mut b = full_set();
    b.present[21] = false;
    b.present[12] = false;
    let avail = available_caps(&b);
    assert_eq!(avail.len(), 17);
    assert!(avail.iter().all(|c| c.1 != 21 && c.1 != 12));
    assert_eq!(unavailable_caps(&b), vec!["cap_net_admin", "cap_sys_admin"]);
    let spec = setcap_spec(&b).unwrap();
    assert!(spec.ends_with("+eip"));
    assert!(!spec.contains("cap_sys_admin"));
    assert!(spec.starts_with("cap_chown,cap_dac_override,"));
}

#[test]
fn single_capability_spec() {
    let b = set_of(&[31]);
    assert_eq!(available_caps(&b), vec![("cap_setfcap", 31)]);
    assert_eq!(setcap_spec(&b), Some("cap_setfcap+eip".to_string()));
    assert_eq!(unavailable_caps(&b).len(), 18);
}

#[test]
fn unknown_numbers_do_not_count() {
    // Only numbers outside the required list are present.
    let b = set_of(&[9, 11, 40]);
    assert!(available_caps(&b).is_empty());
    assert_eq!(setcap_spec(&b), None);
}

#[test]
fn raised_count_counts_zero_codes() {
    assert_eq!(raised_count(&vec![]), 0);
    assert_eq!(raised_count(&vec![0, -1, 0, 0, -1]), 3);
    assert_eq!(raised_count(&vec![-1, -1]), 0);
    assert_eq!(raised_count(&vec![1, 0]), 1);
}
