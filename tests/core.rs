use named_semaphore::{
    c_name, check_handle, check_status, create_request, initial_count, normalize_count,
    open_request, read_value, SemError,
};

#[test]
fn invalid_name_fails() {
    let result = open_request("\0invalid", 0).err().unwrap();
    assert_eq!(result, SemError::InvalidInput);
}

#[test]
fn nul_name_fails_for_every_count() {
    for capacity in [0usize, 1, 2, 32767, usize::MAX] {
        assert_eq!(open_request("/a\0b", capacity).err(), Some(SemError::InvalidInput));
        assert_eq!(create_request("/a\0b", capacity).err(), Some(SemError::InvalidInput));
        assert_eq!(open_request("/trailing\0", capacity).err(), Some(SemError::InvalidInput));
    }
}

#[test]
fn c_name_appends_one_terminator() {
    assert_eq!(c_name("/sem_a").unwrap(), b"/sem_a\0".to_vec());
    assert_eq!(c_name("").unwrap(), vec![0u8]);
    assert_eq!(c_name("/sémaphore").unwrap(), "/sémaphore\0".as_bytes().to_vec());
}

#[test]
fn c_name_rejects_embedded_nul() {
    assert_eq!(c_name("\0"), Err(SemError::InvalidInput));
    assert_eq!(c_name("/x\0y"), Err(SemError::InvalidInput));
}

#[test]
fn open_request_is_not_exclusive() {
    let req = open_request("/sem_b", 0).unwrap();
    assert_eq!(req.name, b"/sem_b\0".to_vec());
    assert_eq!(req.initial, 0);
    assert!(!req.exclusive);
}

#[test]
fn create_request_is_exclusive() {
    let req = create_request("/sem_a", 2).unwrap();
    assert_eq!(req.name, b"/sem_a\0".to_vec());
    assert_eq!(req.initial, 2);
    assert!(req.exclusive);
}

#[test]
fn initial_count_is_clamped() {
    assert_eq!(initial_count(0), 0);
    assert_eq!(initial_count(2), 2);
    assert_eq!(initial_count(u32::MAX as usize), u32::MAX);
    assert_eq!(initial_count(usize::MAX), u32::MAX);
}

#[test]
fn status_zero_is_success() {
    assert_eq!(check_status(0, 0), Ok(()));
    assert_eq!(check_status(0, 11), Ok(()));
}

#[test]
fn status_nonzero_keeps_errno() {
    assert_eq!(check_status(-1, 11), Err(SemError::Os(11)));
    assert_eq!(check_status(1, 4), Err(SemError::Os(4)));
}

#[test]
fn failed_handle_keeps_errno() {
    assert_eq!(check_handle(false, 17), Ok(()));
    assert_eq!(check_handle(true, 17), Err(SemError::Os(17)));
}

#[test]
fn negative_count_reads_as_zero() {
    assert_eq!(normalize_count(-3), 0);
    assert_eq!(normalize_count(i32::MIN), 0);
    assert_eq!(normalize_count(0), 0);
    assert_eq!(normalize_count(5), 5);
    assert_eq!(normalize_count(i32::MAX), i32::MAX as usize);
}

#[test]
fn read_value_outcomes() {
    assert_eq!(read_value(0, 0, 2), Ok(2));
    assert_eq!(read_value(0, 0, 1), Ok(1));
    assert_eq!(read_value(0, 0, -1), Ok(0));
    assert_eq!(read_value(-1, 22, 7), Err(SemError::Os(22)));
}

#[test]
fn created_count_reads_back() {
    for capacity in [0usize, 1, 2, 32767, i32::MAX as usize] {
        let req = create_request("/sem_c", capacity).unwrap();
        assert_eq!(read_value(0, 0, req.initial as i32), Ok(capacity));
    }
}
