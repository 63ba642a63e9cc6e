use zhol::error::{INVALID_ALLOCATION_TYPE, INVALID_PAGE_TYPE, INVALID_PROTECTION_FLAGS};
use zhol::memory::utils::{
    is_readable, is_writable, mbi_safe_read, mbi_safe_write, mbi_safety_check, PageInfo,
    MEM_COMMIT, MEM_MAPPED, MEM_PRIVATE, PAGE_EXECUTE_READ, PAGE_EXECUTE_READWRITE,
    PAGE_EXECUTE_WRITECOPY, PAGE_GUARD, PAGE_NOACCESS, PAGE_READONLY, PAGE_READWRITE,
    PAGE_WRITECOPY,
};
use zhol::MemOpError;

const MEM_IMAGE: u32 = 0x0100_0000;
const MEM_RESERVE: u32 = 0x2000;

fn page(state: u32, protect: u32, page_type: u32) -> PageInfo {
    PageInfo { state, protect, page_type }
}

#[test]
fn readable_and_writable_flags() {
    for flag in [
        PAGE_READONLY,
        PAGE_READWRITE,
        PAGE_WRITECOPY,
        PAGE_EXECUTE_READ,
        PAGE_EXECUTE_READWRITE,
        PAGE_EXECUTE_WRITECOPY,
    ] {
        assert!(is_readable(flag));
    }
    assert!(!is_readable(0));
    assert!(!is_readable(PAGE_NOACCESS));
    assert!(!is_readable(0x10));
    assert!(!is_readable(PAGE_GUARD));
    for flag in [PAGE_READWRITE, PAGE_WRITECOPY, PAGE_EXECUTE_READWRITE, PAGE_EXECUTE_WRITECOPY] {
        assert!(is_writable(flag));
    }
    assert!(!is_writable(PAGE_READONLY));
    assert!(!is_writable(PAGE_EXECUTE_READ));
    assert!(!is_writable(PAGE_NOACCESS));
    assert!(is_writable(PAGE_READWRITE | PAGE_GUARD));
}

#[test]
fn read_check() {
    assert_eq!(mbi_safe_read(page(MEM_RESERVE, PAGE_READONLY, 0)), 0);
    assert_eq!(mbi_safe_read(page(MEM_COMMIT, PAGE_EXECUTE_READ, MEM_IMAGE)), 0);
    assert_eq!(mbi_safe_read(page(MEM_COMMIT, PAGE_NOACCESS, MEM_PRIVATE)), INVALID_PROTECTION_FLAGS);
    assert_eq!(
        mbi_safe_read(page(MEM_COMMIT, PAGE_READWRITE | PAGE_GUARD, MEM_PRIVATE)),
        INVALID_PROTECTION_FLAGS
    );
    assert_eq!(
        mbi_safe_read(page(MEM_COMMIT, PAGE_READONLY | PAGE_NOACCESS, MEM_PRIVATE)),
        INVALID_PROTECTION_FLAGS
    );
    assert_eq!(mbi_safe_read(page(MEM_COMMIT, 0x10, MEM_PRIVATE)), INVALID_PROTECTION_FLAGS);
    assert_eq!(mbi_safe_read(page(MEM_COMMIT, 0, 0)), INVALID_PROTECTION_FLAGS);
}

#[test]
fn write_check() {
    assert_eq!(mbi_safe_write(page(MEM_COMMIT, PAGE_READWRITE, MEM_PRIVATE)), 0);
    assert_eq!(mbi_safe_write(page(MEM_COMMIT, PAGE_EXECUTE_READWRITE, MEM_IMAGE)), 0);
    assert_eq!(mbi_safe_write(page(MEM_COMMIT, PAGE_EXECUTE_WRITECOPY, MEM_IMAGE)), 0);
    assert_eq!(mbi_safe_write(page(MEM_COMMIT, PAGE_WRITECOPY, MEM_IMAGE)), 0);
    assert_eq!(
        mbi_safe_write(page(MEM_RESERVE, PAGE_READWRITE, MEM_PRIVATE)),
        INVALID_ALLOCATION_TYPE
    );
    assert_eq!(mbi_safe_write(page(MEM_COMMIT, PAGE_READWRITE, 0)), INVALID_PAGE_TYPE);
    assert_eq!(
        mbi_safe_write(page(MEM_COMMIT, PAGE_WRITECOPY, MEM_MAPPED)),
        INVALID_PAGE_TYPE | INVALID_PROTECTION_FLAGS
    );
    assert_eq!(
        mbi_safe_write(page(MEM_COMMIT, PAGE_WRITECOPY, MEM_PRIVATE)),
        INVALID_PAGE_TYPE | INVALID_PROTECTION_FLAGS
    );
    assert_eq!(
        mbi_safe_write(page(MEM_COMMIT, PAGE_READONLY, MEM_PRIVATE)),
        INVALID_PROTECTION_FLAGS
    );
    assert_eq!(
        mbi_safe_write(page(MEM_COMMIT, PAGE_READWRITE | PAGE_GUARD, MEM_PRIVATE)),
        INVALID_PROTECTION_FLAGS
    );
    assert_eq!(mbi_safe_write(page(0, 0, 0)), 0b111);
    assert_eq!(mbi_safe_write(page(0, PAGE_NOACCESS, MEM_PRIVATE)), 0b011);
}

#[test]
fn safety_check_reports_the_page() {
    assert_eq!(mbi_safety_check(page(MEM_COMMIT, PAGE_READWRITE, MEM_PRIVATE), true), Ok(true));
    assert_eq!(mbi_safety_check(page(MEM_RESERVE, PAGE_READONLY, 0), false), Ok(true));
    assert_eq!(
        mbi_safety_check(page(MEM_RESERVE, PAGE_READONLY, 0), true),
        Err(MemOpError::MemoryStateInvalid {
            state: MEM_RESERVE,
            protect: PAGE_READONLY,
            page_type: 0,
            mask: 0b111,
            context: Some("mbi_safety_check, needs_write: true".to_string()),
        })
    );
    let error = mbi_safety_check(page(MEM_COMMIT, PAGE_NOACCESS, MEM_PRIVATE), false).unwrap_err();
    assert!(error.is_memory_state_invalid());
    assert_eq!(
        error,
        MemOpError::MemoryStateInvalid {
            state: MEM_COMMIT,
            protect: PAGE_NOACCESS,
            page_type: MEM_PRIVATE,
            mask: INVALID_PROTECTION_FLAGS,
            context: Some("mbi_safety_check, needs_write: false".to_string()),
        }
    );
}

#[test]
fn every_write_safe_page_is_read_safe() {
    for protect in 0..0x200u32 {
        for (state, page_type) in [(MEM_COMMIT, MEM_PRIVATE), (MEM_COMMIT, MEM_IMAGE), (MEM_RESERVE, 0)] {
            let info = page(state, protect, page_type);
            if mbi_safe_write(info) == 0 {
                assert_eq!(mbi_safe_read(info), 0);
            }
        }
    }
}
