use zhol::hooks::{HookData, HookImpl};
use zhol::memory::{Byte, MemoryRegion};
use zhol::trampoline::{
    apply_nops, calc_rel_inst, end_jmp, handle_x86_asm_build, newmem_jmp, rel_displacement,
    X86Assembler,
};
use zhol::MemOpResult;

static NOPS: [Byte; 5] = [Some(0x90), Some(0x90), Some(0x90), Some(0x90), Some(0x90)];

struct NopHook;

impl HookImpl for NopHook {
    fn pattern(&self) -> &'static [Byte] {
        &NOPS
    }

    fn build_hook(&self, hook_data: &HookData) -> MemOpResult<Vec<u8>> {
        let mut ops = X86Assembler::new()?;
        ops.extend(&[0x90, 0x90, 0x90, 0x90, 0x90]);
        let resume = hook_data.get_addr()? + 5;
        end_jmp(&mut ops, None, hook_data, self, resume)?;
        handle_x86_asm_build(ops)
    }
}

fn sample_data(cave: usize, patch: Option<usize>) -> HookData {
    let mut data = HookData::new(
        0x0040_0000,
        MemoryRegion::new(cave, 0x1000).unwrap(),
        MemoryRegion::new(0x0090_0000, 4).unwrap(),
        NOPS.to_vec(),
        4,
        0x1000,
    );
    data.addr = patch;
    data
}

#[test]
fn displacement_follows_the_formula() {
    assert_eq!(rel_displacement(6, 0x0080_0000, 0x0040_1005, 5), 0x0040_1005 - (0x0080_0000 + 5 + 5));
    assert_eq!(rel_displacement(1, 0x1000, 0x2000, 5), 0x2000 - 0x1005);
    assert_eq!(rel_displacement(0, 0, 0, 0), 1);
}

#[test]
fn displacement_wraps_to_32_bits() {
    assert_eq!(rel_displacement(1, 0xF000_0000, 0x1000_0000, 5), 0x1FFF_FFFB);
    assert_eq!(rel_displacement(1, 0, 0x8000_0005, 5), i32::MIN);
}

#[test]
fn inbound_jump_is_e9_and_displacement() {
    let data = sample_data(0x0080_0000, Some(0x0040_1000));
    let ops = newmem_jmp(&data).unwrap();
    assert_eq!(ops.offset(), 5);
    let bytes = handle_x86_asm_build(ops).unwrap();
    let rel: i32 = 0x0080_0000 - (0x0040_1000 + 5);
    let mut expected = vec![0xE9];
    expected.extend_from_slice(&rel.to_le_bytes());
    assert_eq!(bytes, expected);
}

#[test]
fn inbound_jump_needs_a_patch_site() {
    let data = sample_data(0x0080_0000, None);
    assert!(newmem_jmp(&data).is_err());
    assert!(NopHook.build_jmp(&data).is_err());
}

#[test]
fn default_jump_is_five_bytes() {
    let data = sample_data(0x0080_0000, Some(0x0040_1000));
    assert_eq!(data.get_jmp_size(&NopHook).unwrap(), 5);
    assert_eq!(NopHook.var_size(), 4);
    assert_eq!(NopHook.hook_alloc_size(), 0x1000);
    assert_eq!(NopHook.module_name(), "Zhol.exe");
}

#[test]
fn return_jump_uses_the_cursor_before_it() {
    let data = sample_data(0x0080_0000, Some(0x0040_1000));
    let bytes = NopHook.build_hook(&data).unwrap();
    let rel: i32 = 0x0040_1005 - (0x0080_0000 + (5 - 1) + 5);
    let mut expected = vec![0x90, 0x90, 0x90, 0x90, 0x90, 0xE9];
    expected.extend_from_slice(&rel.to_le_bytes());
    assert_eq!(bytes, expected);
}

#[test]
fn padding_is_one_less_than_asked() {
    let mut ops = X86Assembler::new().unwrap();
    apply_nops(&mut ops, 4);
    assert_eq!(ops.offset(), 3);
    apply_nops(&mut ops, 1);
    apply_nops(&mut ops, 0);
    assert_eq!(ops.offset(), 3);
    assert_eq!(calc_rel_inst(&ops, 0x1000, 0x2000, 5), 0x2000 - (0x1000 + 2 + 5));
    assert_eq!(handle_x86_asm_build(ops).unwrap(), vec![0x90, 0x90, 0x90]);
}

#[test]
fn return_jump_is_padded() {
    let data = sample_data(0x0080_0000, Some(0x0040_1000));
    let mut ops = X86Assembler::new().unwrap();
    end_jmp(&mut ops, Some(3), &data, &NopHook, 0x0040_1005).unwrap();
    let rel: i32 = 0x0040_1005 - (0x0080_0000 - 1 + 5);
    let mut expected = vec![0xE9];
    expected.extend_from_slice(&rel.to_le_bytes());
    expected.extend_from_slice(&[0x90, 0x90]);
    assert_eq!(handle_x86_asm_build(ops).unwrap(), expected);
}
