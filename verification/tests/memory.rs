use zhol::hooks::HookData;
use zhol::memory::transmute::{pointer_from, Transmutable};
use zhol::memory::utils::CStr256;
use zhol::memory::write::write_value;
use zhol::memory::{MemOpContext, MemoryRegion, WriteRequest};
use zhol::process::module::{decode_module_name, module_by_name, same_text, stem, ModuleList, NamedModule};
use zhol::MemOpError;

#[test]
fn context_holds_what_it_was_given() {
    let context = MemOpContext::new(0x1000, 0x10, true, Some(5));
    assert_eq!(context.addr, 0x1000);
    assert_eq!(context.offset, 0x10);
    assert!(context.at_pointer);
    assert_eq!(context.timeout, Some(5));
    assert_eq!(context.base_address(0x2000), 0x1000);
    assert_eq!(MemOpContext::new(0, 0, false, None).base_address(0x2000), 0x2000);
}

#[test]
fn region_needs_an_address() {
    assert_eq!(MemoryRegion::new(0, 16), None);
    let region = MemoryRegion::new(0x5000, 16).unwrap();
    assert_eq!(region, MemoryRegion { addr: 0x5000, size: 16, released: false });
}

#[test]
fn region_is_released_once() {
    let mut region = MemoryRegion::new(0x5000, 16).unwrap();
    assert_eq!(region.release(), Some((0x5000, 16)));
    assert_eq!(region.release(), None);
    assert_eq!(region.release(), None);
    assert!(region.released);
}

#[test]
fn region_is_zeroed_by_one_write() {
    let region = MemoryRegion::new(0x5000, 6).unwrap();
    assert_eq!(region.zero(), WriteRequest { addr: 0x5000, bytes: vec![0; 6] });
    let empty = MemoryRegion::new(0x5000, 0).unwrap();
    assert_eq!(empty.zero(), WriteRequest { addr: 0x5000, bytes: vec![] });
}

#[test]
fn integers_read_back_from_their_bytes() {
    let bytes = (-123_456i32).byte_repr().unwrap();
    assert_eq!(bytes, (-123_456i32).to_ne_bytes().to_vec());
    assert_eq!(i32::transmute_from(&bytes), Ok(Some(-123_456)));
    let bytes = 0xDEAD_BEEFu32.byte_repr().unwrap();
    assert_eq!(u32::transmute_from(&bytes), Ok(Some(0xDEAD_BEEF)));
    assert_eq!(pointer_from(&bytes), Some(0xDEAD_BEEF));
    let bytes = i64::MIN.byte_repr().unwrap();
    assert_eq!(bytes.len(), 8);
    assert_eq!(i64::transmute_from(&bytes), Ok(Some(i64::MIN)));
    let bytes = write_value(&0x0123_4567_89AB_CDEFu64).unwrap();
    assert_eq!(bytes, 0x0123_4567_89AB_CDEFu64.to_ne_bytes().to_vec());
    assert_eq!(u64::transmute_from(&bytes), Ok(Some(0x0123_4567_89AB_CDEF)));
}

#[test]
fn integers_need_their_size() {
    let mismatch = MemOpError::new("Failed to convert bytes to type: SizeMismatch");
    assert_eq!(i32::transmute_from(&vec![1, 2, 3]), Err(MemOpError::new("Failed to convert bytes to type: SizeMismatch")));
    assert_eq!(u32::transmute_from(&vec![1, 2, 3, 4, 5]), Err(MemOpError::new("Failed to convert bytes to type: SizeMismatch")));
    assert_eq!(i64::transmute_from(&vec![0; 4]), Err(MemOpError::new("Failed to convert bytes to type: SizeMismatch")));
    assert_eq!(u64::transmute_from(&vec![]), Err(mismatch));
    assert_eq!(pointer_from(&vec![1, 2]), None);
}

#[test]
fn typed_read_reports_missing_data() {
    assert_eq!(zhol::memory::read::value_or_error(Ok(Some(3u8))), Ok(3));
    assert_eq!(
        zhol::memory::read::value_or_error::<u8>(Ok(None)),
        Err(MemOpError::new("No data for the type that was read."))
    );
    assert_eq!(
        zhol::memory::read::value_or_error::<u8>(Err(MemOpError::PatternNotFound)),
        Err(MemOpError::PatternNotFound)
    );
    assert_eq!(zhol::memory::read::read_value::<i32>(&5i32.to_ne_bytes().to_vec()), Ok(5));
    assert!(zhol::memory::read::read_value::<i32>(&vec![1]).is_err());
}

#[test]
fn wide_text_is_little_endian() {
    assert_eq!(zhol::memory::read::decode_wide(&vec![0x41, 0x00, 0xAC, 0x20]), Some("A\u{20AC}".to_string()));
    assert_eq!(zhol::memory::read::decode_wide(&vec![0x41, 0x00, 0x42]), Some("A".to_string()));
    assert_eq!(zhol::memory::read::decode_wide(&vec![]), Some(String::new()));
    assert_eq!(zhol::memory::read::decode_wide(&vec![0x00, 0xDC]), None);
    assert_eq!(
        zhol::memory::read::decode_wide(&vec![0x3D, 0xD8, 0x00, 0xDE]),
        Some("\u{1F600}".to_string())
    );
}

#[test]
fn c_string_round_trip() {
    let text = CStr256::try_from_str("Hello, Zhol").unwrap();
    assert_eq!(text.as_str(), "Hello, Zhol");
    assert_eq!(CStr256::try_from_str("").unwrap().as_str(), "");
    assert_eq!(CStr256::try_from_str("grüße").unwrap().as_str(), "grüße");
    let longest = "x".repeat(255);
    assert_eq!(CStr256::try_from_str(&longest).unwrap().as_str(), longest);
}

#[test]
fn c_string_ends_at_the_first_zero() {
    assert_eq!(CStr256::try_from_str("ab\0cd").unwrap().as_str(), "ab");
    assert_eq!(CStr256::try_from_str("\0").unwrap().as_str(), "");
}

#[test]
fn c_string_refuses_long_text() {
    let long = "x".repeat(256);
    assert_eq!(
        CStr256::try_from_str(&long),
        Err(MemOpError::new("string too long for CStr256"))
    );
}

#[test]
fn module_names_are_decoded() {
    let mut raw = vec![0u8; 260];
    raw[..8].copy_from_slice(b"Zhol.exe");
    assert_eq!(decode_module_name(&raw, 8), Some("Zhol.exe".to_string()));
    assert_eq!(decode_module_name(&raw, 3), Some("Zhol.exe".to_string()));
    assert_eq!(decode_module_name(&raw, 0), None);
    let full = vec![b'a'; 260];
    assert_eq!(decode_module_name(&full, 4), Some("aaaa".to_string()));
    assert_eq!(decode_module_name(&full, 260), Some("a".repeat(260)));
    assert_eq!(decode_module_name(&full, 300), Some("a".repeat(260)));
    raw[0] = 0xFF;
    assert_eq!(decode_module_name(&raw, 8), None);
    assert_eq!(decode_module_name(&vec![], 1), Some(String::new()));
}

#[test]
fn last_segment_of_a_path() {
    assert_eq!(stem("C:\\Games\\Zhol.exe"), "Zhol.exe");
    assert_eq!(stem("Zhol.exe"), "Zhol.exe");
    assert_eq!(stem("C:\\Games\\"), "");
    assert_eq!(stem(""), "");
    assert_eq!(stem("\\"), "");
    assert_eq!(stem("C:\\Spiele\\größe.exe"), "größe.exe");
    assert_eq!(stem("a/b\\c/d"), "c/d");
}

#[test]
fn texts_are_compared_whole() {
    assert!(same_text("Zhol.exe", "Zhol.exe"));
    assert!(same_text("", ""));
    assert!(!same_text("Zhol.exe", "zhol.exe"));
    assert!(!same_text("Zhol.exe", "Zhol.ex"));
    assert!(!same_text("é", "e"));
}

fn module(name: &str, module: usize) -> NamedModule {
    NamedModule { name: name.to_string(), module, base: module, size: 0x1000 }
}

#[test]
fn first_module_with_the_name_wins() {
    let modules = ModuleList {
        modules: vec![
            module("C:\\Windows\\ntdll.dll", 1),
            module("C:\\Games\\Zhol.exe", 2),
            module("D:\\Zhol.exe", 3),
            module("Zhol.exe", 4),
        ],
    };
    assert_eq!(module_by_name(&modules, "Zhol.exe", true), Some(2));
    assert_eq!(module_by_name(&modules, "Zhol.exe", false), Some(4));
    assert_eq!(module_by_name(&modules, "D:\\Zhol.exe", false), Some(3));
    assert_eq!(module_by_name(&modules, "D:\\Zhol.exe", true), None);
    assert_eq!(module_by_name(&modules, "ntdll.dll", true), Some(1));
    assert_eq!(module_by_name(&modules, "missing.dll", true), None);
    assert_eq!(module_by_name(&ModuleList { modules: vec![] }, "Zhol.exe", true), None);
}

#[test]
fn record_answers_for_what_it_knows() {
    let mut data = HookData::new(
        0x0040_0000,
        MemoryRegion::new(0x0080_0000, 0x1000).unwrap(),
        MemoryRegion::new(0x0090_0000, 4).unwrap(),
        vec![Some(0x90), None],
        4,
        0x1000,
    );
    assert!(data.get_addr().is_err());
    assert_eq!(
        data.get_nth_unhook_byte(0),
        Err(MemOpError::new("Unhook bytes called without pattern scanning and finding a match."))
    );
    assert_eq!(
        data.record_scan(0x0040_0000, &vec![1, 2, 3]),
        Err(MemOpError::PatternNotFound)
    );
    assert_eq!(data.addr, None);
    assert_eq!(data.found_bytes, None);
    assert_eq!(data.record_scan(0x0040_0000, &vec![1, 0x90, 7, 0x90, 8]), Ok(()));
    assert_eq!(data.get_addr(), Ok(0x0040_0001));
    assert_eq!(data.found_bytes, Some(vec![0x90, 7]));
    assert_eq!(data.get_nth_unhook_byte(0), Ok(0x90));
    assert_eq!(data.get_nth_unhook_byte(1), Ok(7));
    assert_eq!(
        data.get_nth_unhook_byte(12),
        Err(MemOpError::new("Index \"12\" not in range unhookbytes."))
    );
    assert_eq!(
        data.record_scan(usize::MAX, &vec![1, 0x90, 7]),
        Err(MemOpError::new("The patch site lies beyond the address space."))
    );
    assert_eq!(data.get_addr(), Ok(0x0040_0001));
    assert_eq!(data.ctx(8, true, Some(3)), MemOpContext::new(0x0090_0000, 8, true, Some(3)));
}

#[test]
fn c_string_from_text_cuts_what_does_not_fit() {
    assert_eq!(CStr256::from("short").as_str(), "short");
    let long = "y".repeat(300);
    assert_eq!(CStr256::from(long.as_str()).as_str(), "y".repeat(255));
    assert_eq!(CStr256::from("same"), CStr256::try_from_str("same").unwrap());
    let split = format!("{}{}", "z".repeat(254), '\u{E9}');
    assert_eq!(CStr256::from(split.as_str()).as_str(), "");
}
