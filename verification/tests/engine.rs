use std::collections::BTreeMap;

use zhol::error::with_handle;
use zhol::hooks::{build_payloads, Create, HookData, HookImpl, Install, Uninstall};
use zhol::memory::read::{read_value, ReadBytes, ReadWideString};
use zhol::memory::utils::{
    PageInfo, WaitForSafeMem, MEM_COMMIT, MEM_PRIVATE, PAGE_EXECUTE_READWRITE, PAGE_NOACCESS,
    PAGE_READWRITE,
};
use zhol::memory::write::WriteBytes;
use zhol::memory::{Access, Byte, MemOpContext, Op, Reply, Step};
use zhol::process::module::{lookup_reply, Enumerate};
use zhol::trampoline::{end_jmp, handle_x86_asm_build, X86Assembler};
use zhol::{MemOpError, MemOpResult};

const MODULE_BASE: usize = 0x0040_0000;
const PATCH_OFFSET: usize = 0x20;
const ORIGINAL: [u8; 5] = [0x90, 0x90, 0x90, 0x90, 0x90];

/// A victim that lives in a map of bytes.
struct Victim {
    memory: BTreeMap<usize, u8>,
    modules: Vec<(Vec<u8>, usize, usize)>,
    page: PageInfo,
    next_allocation: usize,
    clock: u64,
    lock_held: bool,
    var_addr: usize,
    short_writes: bool,
    handle_busy: bool,
    trace: Vec<Op>,
    remote_under_lock: usize,
}

impl Victim {
    fn new() -> Victim {
        let mut memory = BTreeMap::new();
        for i in 0..0x100usize {
            memory.insert(MODULE_BASE + i, (i % 7) as u8 + 1);
        }
        for (i, byte) in ORIGINAL.iter().enumerate() {
            memory.insert(MODULE_BASE + PATCH_OFFSET + i, *byte);
        }
        Victim {
            memory,
            modules: vec![
                (b"C:\\Windows\\System32\\kernel32.dll".to_vec(), 0x7000_0000, 0x40),
                (b"C:\\Games\\Zhol.exe".to_vec(), MODULE_BASE, 0x100),
            ],
            page: PageInfo {
                state: MEM_COMMIT,
                protect: PAGE_EXECUTE_READWRITE,
                page_type: MEM_PRIVATE,
            },
            next_allocation: 0x0080_0000,
            clock: 0,
            lock_held: false,
            var_addr: 0,
            short_writes: false,
            handle_busy: false,
            trace: Vec::new(),
            remote_under_lock: 0,
        }
    }

    fn peek(&self, addr: usize, size: usize) -> Vec<u8> {
        (0..size).map(|i| *self.memory.get(&(addr + i)).unwrap_or(&0)).collect()
    }

    fn poke(&mut self, addr: usize, bytes: &[u8]) {
        for (i, byte) in bytes.iter().enumerate() {
            self.memory.insert(addr + i, *byte);
        }
    }

    fn handle(&self, timeout: Option<u64>) -> MemOpResult<()> {
        with_handle(if self.handle_busy { None } else { Some(()) }, timeout)
    }

    /// Carries out a single call of the operating system.
    fn call(&mut self, op: Op, payload: &[u8]) -> MemOpResult<Reply> {
        self.trace.push(op);
        if self.lock_held && !matches!(op, Op::ReturnData) {
            self.remote_under_lock += 1;
        }
        match op {
            Op::QueryPage { timeout, .. } => {
                self.handle(timeout)?;
                Ok(Reply::Page(self.page))
            }
            Op::Protect { protection, timeout, .. } => {
                self.handle(timeout)?;
                let previous = self.page.protect;
                self.page.protect = protection;
                Ok(Reply::Protection(previous))
            }
            Op::ReadMemory { addr, size, timeout } => {
                self.handle(timeout)?;
                Ok(Reply::Read { buffer: self.peek(addr, size), transferred: size })
            }
            Op::WriteMemory { addr, size, timeout } => {
                self.handle(timeout)?;
                assert_eq!(size, payload.len());
                let count = if self.short_writes { size / 2 } else { size };
                self.poke(addr, &payload[..count]);
                Ok(Reply::Count(count))
            }
            Op::Park { nanos } => {
                self.clock += nanos;
                Ok(Reply::Elapsed(self.clock))
            }
            Op::Yield => Ok(Reply::Done),
            Op::EnumModules { timeout } => {
                self.handle(timeout)?;
                Ok(Reply::Modules(self.modules.iter().map(|m| m.1).collect()))
            }
            Op::ModuleName { module, timeout } => {
                self.handle(timeout)?;
                let name = &self.modules.iter().find(|m| m.1 == module).unwrap().0;
                let mut raw = vec![0u8; 260];
                raw[..name.len()].copy_from_slice(name);
                Ok(Reply::Name { raw, length: name.len() as u32 })
            }
            Op::ModuleInfo { module, timeout } => {
                self.handle(timeout)?;
                let found = self.modules.iter().find(|m| m.1 == module).unwrap();
                Ok(Reply::Image { base: found.1, size: found.2 })
            }
            Op::Allocate { size, timeout } => {
                self.handle(timeout)?;
                let addr = self.next_allocation;
                self.next_allocation += (size + 0xFFF) & !0xFFF;
                Ok(Reply::Allocated(addr))
            }
            Op::Free { .. } => Ok(Reply::Done),
            Op::BorrowData => {
                self.lock_held = true;
                Ok(Reply::Base(self.var_addr))
            }
            Op::ReturnData => {
                self.lock_held = false;
                Ok(Reply::Done)
            }
            _ => panic!("not a single call: {:?}", op),
        }
    }

    fn wait_for_safe_mem(
        &mut self,
        addr: usize,
        timeout: Option<u64>,
        needs_write: bool,
    ) -> MemOpResult<()> {
        let (mut wait, mut op) = WaitForSafeMem::start(addr, timeout, needs_write);
        loop {
            let reply = self.call(op, &[]);
            match wait.step(reply) {
                Step::Perform(next) => op = next,
                Step::Finished(result) => return result,
            }
        }
    }

    fn read_bytes(&mut self, addr: usize, size: usize, timeout: Option<u64>) -> MemOpResult<Vec<u8>> {
        let (mut engine, mut op) = ReadBytes::start(addr, size, timeout);
        loop {
            let reply = match op {
                Op::WaitForSafeMem { addr, timeout, needs_write } => {
                    self.wait_for_safe_mem(addr, timeout, needs_write).map(|_| Reply::Done)
                }
                single => self.call(single, &[]),
            };
            match engine.step(reply) {
                Step::Perform(next) => op = next,
                Step::Finished(result) => return result,
            }
        }
    }

    fn write_bytes(&mut self, addr: usize, bytes: &[u8], timeout: Option<u64>) -> MemOpResult<()> {
        let (mut engine, mut op) = WriteBytes::start(addr, bytes.to_vec(), timeout);
        loop {
            let reply = match op {
                Op::WaitForSafeMem { addr, timeout, needs_write } => {
                    self.wait_for_safe_mem(addr, timeout, needs_write).map(|_| Reply::Done)
                }
                single => {
                    let payload = engine.payload().clone();
                    self.call(single, &payload)
                }
            };
            match engine.step(reply) {
                Step::Perform(next) => op = next,
                Step::Finished(result) => return result,
            }
        }
    }

    fn find_module(&mut self, name: &str, stem: bool, timeout: Option<u64>) -> MemOpResult<Reply> {
        let (mut engine, mut op) = Enumerate::start(timeout);
        let listing = loop {
            let reply = self.call(op, &[]);
            match engine.step(reply) {
                Step::Perform(next) => op = next,
                Step::Finished(result) => break result,
            }
        };
        lookup_reply(listing, name, stem)
    }

    /// Carries out a request of one of the larger engines.
    fn serve(&mut self, op: Op, payload: &[u8], name: &str) -> MemOpResult<Reply> {
        match op {
            Op::FindModule { stem, timeout } => {
                self.trace.push(op);
                self.find_module(name, stem, timeout)
            }
            Op::ReadBytes { addr, size, timeout } => {
                self.trace.push(op);
                if self.lock_held {
                    self.remote_under_lock += 1;
                }
                self.read_bytes(addr, size, timeout).map(Reply::Data)
            }
            Op::WriteBytes { addr, size, timeout } => {
                self.trace.push(op);
                assert_eq!(size, payload.len());
                self.write_bytes(addr, payload, timeout).map(|_| Reply::Done)
            }
            single => self.call(single, payload),
        }
    }

    fn create<H: HookImpl>(&mut self, hook: &H) -> MemOpResult<HookData> {
        let (mut engine, mut op) =
            Create::start(hook.pattern().to_vec(), hook.var_size(), hook.hook_alloc_size());
        loop {
            let reply = self.serve(op, &[], hook.module_name());
            match engine.step(reply) {
                Step::Perform(next) => op = next,
                Step::Finished(result) => {
                    if let Ok(data) = &result {
                        self.var_addr = data.var_mem.addr;
                    }
                    return result;
                }
            }
        }
    }

    fn hook<H: HookImpl>(&mut self, hook: &H, data: &mut HookData, timeout: u64) -> MemOpResult<()> {
        let (mut engine, mut op) = Install::start(timeout);
        loop {
            let reply = match op {
                Op::BuildHook => {
                    self.trace.push(op);
                    build_payloads(hook, data)
                }
                other => {
                    let payload = engine.payload().clone();
                    self.serve(other, &payload, hook.module_name())
                }
            };
            match engine.step(data, reply) {
                Step::Perform(next) => op = next,
                Step::Finished(result) => return result,
            }
        }
    }

    fn unhook(&mut self, data: &HookData, timeout: u64) -> MemOpResult<()> {
        let (mut engine, mut step) = Uninstall::start(data, timeout);
        loop {
            match step {
                Step::Finished(result) => return result,
                Step::Perform(op) => {
                    let payload = engine.payload().clone();
                    let reply = self.serve(op, &payload, "");
                    step = engine.step(reply);
                }
            }
        }
    }

    fn run_access(&mut self, begun: (Access, Op)) -> MemOpResult<Vec<u8>> {
        let (mut engine, mut op) = begun;
        loop {
            let payload = engine.payload().clone();
            let reply = self.serve(op, &payload, "");
            match engine.step(reply) {
                Step::Perform(next) => op = next,
                Step::Finished(result) => return result,
            }
        }
    }

    fn read_i32(&mut self, context: &MemOpContext) -> MemOpResult<i32> {
        let bytes = self.run_access(zhol::memory::read::<i32>(context))?;
        read_value::<i32>(&bytes)
    }

    fn write_i32(&mut self, value: i32, context: &MemOpContext) -> MemOpResult<()> {
        self.run_access(zhol::memory::write::<i32>(value, context)?).map(|_| ())
    }

    fn read_wide_string(&mut self, address: usize) -> MemOpResult<String> {
        let (mut engine, mut step) = ReadWideString::start(address);
        loop {
            match step {
                Step::Finished(result) => return result,
                Step::Perform(op) => {
                    let reply = self.serve(op, &[], "");
                    step = engine.step(reply);
                }
            }
        }
    }
}

static NOPS: [Byte; 5] = [Some(0x90), Some(0x90), Some(0x90), Some(0x90), Some(0x90)];
static ABSENT: [Byte; 3] = [Some(0xDE), Some(0xAD), Some(0xBE)];

struct NopHook;

impl HookImpl for NopHook {
    fn pattern(&self) -> &'static [Byte] {
        &NOPS
    }

    fn build_hook(&self, hook_data: &HookData) -> MemOpResult<Vec<u8>> {
        let mut ops = X86Assembler::new()?;
        ops.extend(&ORIGINAL);
        let resume = hook_data.get_addr()? + 5;
        end_jmp(&mut ops, None, hook_data, self, resume)?;
        handle_x86_asm_build(ops)
    }
}

struct AbsentHook;

impl HookImpl for AbsentHook {
    fn pattern(&self) -> &'static [Byte] {
        &ABSENT
    }

    fn build_hook(&self, _hook_data: &HookData) -> MemOpResult<Vec<u8>> {
        Ok(vec![0xC3])
    }
}

struct ElsewhereHook;

impl HookImpl for ElsewhereHook {
    fn pattern(&self) -> &'static [Byte] {
        &NOPS
    }

    fn module_name(&self) -> &'static str {
        "Missing.exe"
    }

    fn build_hook(&self, _hook_data: &HookData) -> MemOpResult<Vec<u8>> {
        Ok(vec![0xC3])
    }
}

#[test]
fn creation_allocates_cave_and_variables() {
    let mut victim = Victim::new();
    let data = victim.create(&NopHook).unwrap();
    assert_eq!(data.module_addr, MODULE_BASE);
    assert_eq!(data.hook_mem.addr, 0x0080_0000);
    assert_eq!(data.hook_mem.size, 0x1000);
    assert_eq!(data.var_mem.addr, 0x0080_1000);
    assert_eq!(data.var_mem.size, 4);
    assert_eq!(data.pattern, NOPS.to_vec());
    assert_eq!(data.addr, None);
    assert_eq!(data.found_bytes, None);
}

#[test]
fn creation_needs_the_module() {
    let mut victim = Victim::new();
    let error = victim.create(&ElsewhereHook).unwrap_err();
    assert_eq!(error, MemOpError::new("module not found"));
}

#[test]
fn integer_write_read() {
    let mut victim = Victim::new();
    let mut data = victim.create(&NopHook).unwrap();
    victim.hook(&NopHook, &mut data, 1_000_000_000).unwrap();
    let context = data.ctx(0, false, Some(1_000_000_000));
    let value = 0xDEAD_BEEFu32 as i32;
    victim.write_i32(value, &context).unwrap();
    assert_eq!(victim.read_i32(&context).unwrap(), value);
    assert_eq!(victim.peek(data.var_mem.addr, 4), value.to_ne_bytes().to_vec());
}

#[test]
fn unhook_restores_bytes() {
    let mut victim = Victim::new();
    let patch = MODULE_BASE + PATCH_OFFSET;
    let mut data = victim.create(&NopHook).unwrap();
    assert_eq!(victim.read_bytes(patch, 5, None).unwrap(), ORIGINAL.to_vec());
    victim.hook(&NopHook, &mut data, 1_000_000_000).unwrap();
    assert_eq!(data.addr, Some(patch));
    assert_eq!(data.found_bytes, Some(ORIGINAL.to_vec()));
    let patched = victim.read_bytes(patch, 5, None).unwrap();
    assert_eq!(patched[0], 0xE9);
    let inbound: i32 = (data.hook_mem.addr as i64 - (patch as i64 + 5)) as i32;
    assert_eq!(patched[1..].to_vec(), inbound.to_le_bytes().to_vec());
    let cave = victim.peek(data.hook_mem.addr, 10);
    let back: i32 = ((patch + 5) as i64 - (data.hook_mem.addr as i64 + 4 + 5)) as i32;
    let mut expected = ORIGINAL.to_vec();
    expected.push(0xE9);
    expected.extend_from_slice(&back.to_le_bytes());
    assert_eq!(cave, expected);
    victim.unhook(&data, 1_000_000_000).unwrap();
    assert_eq!(victim.read_bytes(patch, 5, None).unwrap(), ORIGINAL.to_vec());
}

#[test]
fn unhook_restores_bytes_under_wildcards() {
    static LOOSE: [Byte; 4] = [Some(0x90), None, None, Some(0x90)];
    struct LooseHook;
    impl HookImpl for LooseHook {
        fn pattern(&self) -> &'static [Byte] {
            &LOOSE
        }
        fn build_hook(&self, _hook_data: &HookData) -> MemOpResult<Vec<u8>> {
            Ok(vec![0xC3])
        }
        fn build_jmp(&self, _hook_data: &HookData) -> MemOpResult<Vec<u8>> {
            Ok(vec![0xCC, 0xCC, 0xCC, 0xCC])
        }
    }
    let mut victim = Victim::new();
    let site = MODULE_BASE + 0x80;
    victim.poke(site, &[0x90, 0x12, 0x34, 0x90]);
    for i in 0..5 {
        victim.poke(MODULE_BASE + PATCH_OFFSET + i, &[0x11]);
    }
    let mut data = victim.create(&LooseHook).unwrap();
    victim.hook(&LooseHook, &mut data, 1).unwrap();
    assert_eq!(data.addr, Some(site));
    assert_eq!(victim.peek(site, 4), vec![0xCC, 0xCC, 0xCC, 0xCC]);
    victim.unhook(&data, 1).unwrap();
    assert_eq!(victim.peek(site, 4), vec![0x90, 0x12, 0x34, 0x90]);
}

#[test]
fn unhook_without_install_does_nothing() {
    let mut victim = Victim::new();
    let data = victim.create(&NopHook).unwrap();
    let before = victim.memory.clone();
    let calls = victim.trace.len();
    victim.unhook(&data, 1_000).unwrap();
    assert_eq!(victim.memory, before);
    assert_eq!(victim.trace.len(), calls);
}

#[test]
fn unhook_needs_the_captured_bytes() {
    let mut victim = Victim::new();
    let mut data = victim.create(&NopHook).unwrap();
    data.addr = Some(MODULE_BASE + PATCH_OFFSET);
    let error = victim.unhook(&data, 1_000).unwrap_err();
    assert_eq!(error, MemOpError::new("unhook without prior scan"));
}

#[test]
fn pattern_not_found() {
    let mut victim = Victim::new();
    let mut data = victim.create(&AbsentHook).unwrap();
    let before = victim.peek(MODULE_BASE, 0x100);
    let error = victim.hook(&AbsentHook, &mut data, 1_000_000).unwrap_err();
    assert_eq!(error, MemOpError::PatternNotFound);
    assert_eq!(data.addr, None);
    assert_eq!(data.found_bytes, None);
    assert_eq!(victim.peek(MODULE_BASE, 0x100), before);
    assert!(!victim.trace.iter().any(|op| matches!(op, Op::WriteBytes { .. })));
}

#[test]
fn install_writes_the_cave_before_the_patch() {
    let mut victim = Victim::new();
    let mut data = victim.create(&NopHook).unwrap();
    victim.trace.clear();
    victim.hook(&NopHook, &mut data, 7).unwrap();
    let writes: Vec<Op> = victim
        .trace
        .iter()
        .copied()
        .filter(|op| matches!(op, Op::WriteBytes { .. }))
        .collect();
    assert_eq!(
        writes,
        vec![
            Op::WriteBytes { addr: data.hook_mem.addr, size: 10, timeout: Some(7) },
            Op::WriteBytes { addr: MODULE_BASE + PATCH_OFFSET, size: 5, timeout: Some(7) },
        ]
    );
    let first_steps: Vec<Op> = victim.trace.iter().copied().take(1).collect();
    assert_eq!(first_steps, vec![Op::FindModule { stem: true, timeout: Some(7) }]);
    assert!(victim.trace.contains(&Op::Protect {
        addr: MODULE_BASE,
        size: 0x100,
        protection: PAGE_READWRITE,
        timeout: None
    }));
}

#[test]
fn failed_cave_write_leaves_the_patch_site_alone() {
    let mut victim = Victim::new();
    let mut data = victim.create(&NopHook).unwrap();
    victim.short_writes = true;
    let error = victim.hook(&NopHook, &mut data, 7).unwrap_err();
    assert_eq!(error, MemOpError::new("incomplete write"));
    assert_eq!(victim.peek(MODULE_BASE + PATCH_OFFSET, 5), ORIGINAL.to_vec());
}

#[test]
fn timeout() {
    let mut victim = Victim::new();
    victim.page.protect = PAGE_NOACCESS;
    let error = victim.wait_for_safe_mem(MODULE_BASE, Some(0), false).unwrap_err();
    assert!(error.is_timeout());
    assert_eq!(
        error,
        MemOpError::TimeoutReached {
            timeout: Some(0),
            context: Some("Reached timeout before memory region was readable".to_string()),
        }
    );
    assert_eq!(
        victim.trace,
        vec![Op::QueryPage { addr: MODULE_BASE, timeout: Some(0) }, Op::Park { nanos: 0 }]
    );
    assert!(victim.read_bytes(MODULE_BASE, 4, Some(0)).unwrap_err().is_timeout());
    assert!(victim.write_bytes(MODULE_BASE, &[1, 2], Some(0)).is_err());
}

#[test]
fn busy_handle_is_a_timeout() {
    let mut victim = Victim::new();
    victim.handle_busy = true;
    let error = victim.read_bytes(MODULE_BASE, 4, Some(0)).unwrap_err();
    assert_eq!(error, MemOpError::TimeoutReached { timeout: Some(0), context: None });
    let error = victim.write_bytes(MODULE_BASE, &[1], Some(5)).unwrap_err();
    assert_eq!(error, MemOpError::TimeoutReached { timeout: Some(5), context: None });
    assert!(error.is_timeout());
}

#[test]
fn wait_retries_until_the_budget_is_spent() {
    let mut victim = Victim::new();
    victim.page.protect = PAGE_NOACCESS;
    let error = victim.wait_for_safe_mem(MODULE_BASE, None, true).unwrap_err();
    assert!(error.is_timeout());
    assert_eq!(
        victim.trace,
        vec![
            Op::QueryPage { addr: MODULE_BASE, timeout: None },
            Op::Park { nanos: 10_000_000_000 }
        ]
    );
}

#[test]
fn wait_polls_again_after_a_short_sleep() {
    let (mut wait, first) = WaitForSafeMem::start(0x1000, Some(100), true);
    assert_eq!(first, Op::QueryPage { addr: 0x1000, timeout: Some(100) });
    let bad = PageInfo { state: MEM_COMMIT, protect: PAGE_NOACCESS, page_type: MEM_PRIVATE };
    let good = PageInfo { state: MEM_COMMIT, protect: PAGE_READWRITE, page_type: MEM_PRIVATE };
    assert_eq!(wait.step(Ok(Reply::Page(bad))), Step::Perform(Op::Park { nanos: 100 }));
    assert_eq!(
        wait.step(Ok(Reply::Elapsed(40))),
        Step::Perform(Op::QueryPage { addr: 0x1000, timeout: Some(100) })
    );
    assert_eq!(wait.step(Ok(Reply::Page(bad))), Step::Perform(Op::Park { nanos: 60 }));
    assert_eq!(
        wait.step(Ok(Reply::Elapsed(99))),
        Step::Perform(Op::QueryPage { addr: 0x1000, timeout: Some(100) })
    );
    assert_eq!(wait.step(Ok(Reply::Page(good))), Step::Finished(Ok(())));
    assert_eq!(
        wait.step(Ok(Reply::Page(good))),
        Step::Finished(Err(MemOpError::new("The reply does not answer the request.")))
    );
}

#[test]
fn read_truncates_to_what_was_transferred() {
    let (mut engine, first) = ReadBytes::start(0x2000, 4, Some(9));
    assert_eq!(first, Op::WaitForSafeMem { addr: 0x2000, timeout: Some(9), needs_write: false });
    assert_eq!(
        engine.step(Ok(Reply::Done)),
        Step::Perform(Op::ReadMemory { addr: 0x2000, size: 4, timeout: Some(9) })
    );
    assert_eq!(
        engine.step(Ok(Reply::Read { buffer: vec![1, 2, 3, 4], transferred: 3 })),
        Step::Perform(Op::Yield)
    );
    assert_eq!(
        engine.step(Ok(Reply::Done)),
        Step::Perform(Op::WaitForSafeMem { addr: 0x2000, timeout: Some(9), needs_write: false })
    );
    assert_eq!(engine.step(Ok(Reply::Done)), Step::Finished(Ok(vec![1, 2, 3])));
}

#[test]
fn write_restores_the_protection_it_found() {
    let mut victim = Victim::new();
    victim.page.protect = PAGE_READWRITE;
    victim.write_bytes(MODULE_BASE, &[9, 8, 7], Some(3)).unwrap();
    assert_eq!(victim.page.protect, PAGE_READWRITE);
    assert_eq!(victim.peek(MODULE_BASE, 3), vec![9, 8, 7]);
    assert_eq!(
        victim.trace,
        vec![
            Op::Protect {
                addr: MODULE_BASE,
                size: 3,
                protection: PAGE_EXECUTE_READWRITE,
                timeout: Some(3)
            },
            Op::QueryPage { addr: MODULE_BASE, timeout: Some(3) },
            Op::WriteMemory { addr: MODULE_BASE, size: 3, timeout: Some(3) },
            Op::Protect { addr: MODULE_BASE, size: 3, protection: PAGE_READWRITE, timeout: Some(3) },
            Op::QueryPage { addr: MODULE_BASE, timeout: Some(3) },
            Op::Yield,
        ]
    );
}

#[test]
fn incomplete_write_fails() {
    let mut victim = Victim::new();
    victim.short_writes = true;
    let error = victim.write_bytes(MODULE_BASE, &[9, 8, 7, 6], None).unwrap_err();
    assert_eq!(error, MemOpError::new("incomplete write"));
    assert_eq!(victim.page.protect, PAGE_EXECUTE_READWRITE);
}

#[test]
fn typed_access_follows_the_pointer() {
    let mut victim = Victim::new();
    victim.var_addr = 0x0090_0000;
    victim.poke(0x0090_0000, &0x0091_0000u32.to_ne_bytes());
    victim.poke(0x0091_0008, &1234i32.to_ne_bytes());
    let context = MemOpContext::new(0, 8, true, None);
    assert_eq!(victim.read_i32(&context).unwrap(), 1234);
    victim.write_i32(-5, &context).unwrap();
    assert_eq!(victim.peek(0x0091_0008, 4), (-5i32).to_ne_bytes().to_vec());
    let direct = MemOpContext::new(0x0091_0000, 8, false, None);
    assert_eq!(victim.read_i32(&direct).unwrap(), -5);
}

#[test]
fn typed_access_gives_the_lock_back_before_the_value() {
    let mut victim = Victim::new();
    victim.var_addr = 0x0090_0000;
    victim.poke(0x0090_0004, &77i32.to_ne_bytes());
    let context = MemOpContext::new(0, 4, false, Some(1));
    assert_eq!(victim.read_i32(&context).unwrap(), 77);
    assert_eq!(victim.remote_under_lock, 0);
    assert_eq!(victim.trace[0], Op::BorrowData);
    assert_eq!(victim.trace[1], Op::ReturnData);
    assert_eq!(victim.trace[2], Op::ReadBytes { addr: 0x0090_0004, size: 4, timeout: Some(1) });
    assert!(!victim.lock_held);
}

#[test]
fn typed_access_gives_the_lock_back_on_failure() {
    let mut victim = Victim::new();
    victim.var_addr = 0x0090_0000;
    victim.page.protect = PAGE_NOACCESS;
    let context = MemOpContext::new(0, 4, true, Some(0));
    assert!(victim.read_i32(&context).unwrap_err().is_timeout());
    assert!(!victim.lock_held);
    assert_eq!(*victim.trace.last().unwrap(), Op::ReturnData);
}

fn wide(text: &str) -> Vec<u8> {
    text.encode_utf16().flat_map(|unit| unit.to_le_bytes()).collect()
}

#[test]
fn wide_string_read() {
    let mut victim = Victim::new();
    let inline = 0x00A0_0000;
    victim.poke(inline, &wide("abc"));
    victim.poke(inline + 16, &3i32.to_ne_bytes());
    assert_eq!(victim.read_wide_string(inline).unwrap(), "abc");

    let heap = 0x00A1_0000;
    let text = "longer text \u{1F600}";
    victim.poke(heap, &0x00A2_0000u32.to_ne_bytes());
    victim.poke(heap + 16, &(text.encode_utf16().count() as i32).to_ne_bytes());
    victim.poke(0x00A2_0000, &wide(text));
    assert_eq!(victim.read_wide_string(heap).unwrap(), text);

    let empty = 0x00A3_0000;
    victim.poke(empty + 16, &0i32.to_ne_bytes());
    victim.trace.clear();
    assert_eq!(victim.read_wide_string(empty).unwrap(), "");
    let reads: Vec<&Op> =
        victim.trace.iter().filter(|op| matches!(op, Op::ReadBytes { .. })).collect();
    assert_eq!(reads.len(), 1);
}

#[test]
fn wide_string_of_four_units_lies_behind_the_pointer() {
    let mut victim = Victim::new();
    let string = 0x00A4_0000;
    victim.poke(string, &0x00A5_0000u32.to_ne_bytes());
    victim.poke(string + 16, &4i32.to_ne_bytes());
    victim.poke(0x00A5_0000, &wide("four"));
    assert_eq!(victim.read_wide_string(string).unwrap(), "four");
}

#[test]
fn wide_string_rejects_bad_input() {
    let mut victim = Victim::new();
    let string = 0x00A6_0000;
    victim.poke(string + 16, &(-1i32).to_ne_bytes());
    assert_eq!(
        victim.read_wide_string(string).unwrap_err(),
        MemOpError::new("The wide string has a negative length.")
    );
    victim.poke(string + 16, &1i32.to_ne_bytes());
    victim.poke(string, &[0x00, 0xD8]);
    assert_eq!(
        victim.read_wide_string(string).unwrap_err(),
        MemOpError::new("The wide string is no UTF-16.")
    );
    assert_eq!(
        victim.read_wide_string(usize::MAX - 3).unwrap_err(),
        MemOpError::new("The address lies beyond the address space.")
    );
}

#[test]
fn lookup_compares_the_last_segment() {
    let mut victim = Victim::new();
    assert_eq!(
        victim.find_module("Zhol.exe", true, None).unwrap(),
        Reply::Module(Some(MODULE_BASE))
    );
    assert_eq!(victim.find_module("Zhol.exe", false, None).unwrap(), Reply::Module(None));
    assert_eq!(
        victim.find_module("C:\\Games\\Zhol.exe", false, None).unwrap(),
        Reply::Module(Some(MODULE_BASE))
    );
    victim.modules.insert(0, (vec![0xFF, 0xFE], 0x1234, 1));
    victim.modules.push((b"D:\\Other\\Zhol.exe".to_vec(), 0x5678, 1));
    assert_eq!(
        victim.find_module("Zhol.exe", true, None).unwrap(),
        Reply::Module(Some(MODULE_BASE))
    );
    victim.handle_busy = true;
    let error = victim.find_module("Zhol.exe", true, Some(2)).unwrap_err();
    assert_eq!(
        error,
        MemOpError::TimeoutReached {
            timeout: Some(2),
            context: Some("Obtaining module with name \"Zhol.exe\" failed".to_string()),
        }
    );
}

#[test]
fn creation_gives_the_cave_back_when_the_variables_fail() {
    let (mut creation, first) = Create::start(NOPS.to_vec(), 4, 0x1000);
    assert_eq!(first, Op::FindModule { stem: true, timeout: None });
    assert_eq!(
        creation.step(Ok(Reply::Module(Some(0x0040_0000)))),
        Step::Perform(Op::Allocate { size: 0x1000, timeout: Some(10_000_000) })
    );
    assert_eq!(
        creation.step(Ok(Reply::Allocated(0x0080_0000))),
        Step::Perform(Op::Allocate { size: 4, timeout: Some(10_000_000) })
    );
    assert_eq!(
        creation.step(Err(MemOpError::from_win32(8, "Not enough memory".to_string()))),
        Step::Perform(Op::Free { addr: 0x0080_0000, size: 0x1000 })
    );
    assert_eq!(
        creation.step(Ok(Reply::Done)),
        Step::Finished(Err(MemOpError::from_win32(8, "Not enough memory".to_string())))
    );
}

#[test]
fn creation_refuses_a_null_allocation() {
    let (mut creation, _) = Create::start(NOPS.to_vec(), 4, 0x1000);
    creation.step(Ok(Reply::Module(Some(0x0040_0000))));
    assert_eq!(
        creation.step(Ok(Reply::Allocated(0))),
        Step::Finished(Err(MemOpError::new("The allocation returned no address.")))
    );
    let (mut creation, _) = Create::start(NOPS.to_vec(), 4, 0x1000);
    creation.step(Ok(Reply::Module(Some(0x0040_0000))));
    creation.step(Ok(Reply::Allocated(0x0080_0000)));
    assert_eq!(
        creation.step(Ok(Reply::Allocated(0))),
        Step::Perform(Op::Free { addr: 0x0080_0000, size: 0x1000 })
    );
    assert_eq!(
        creation.step(Err(MemOpError::PatternNotFound)),
        Step::Finished(Err(MemOpError::new("The allocation returned no address.")))
    );
}

#[test]
fn install_needs_the_module() {
    let mut victim = Victim::new();
    let mut data = victim.create(&NopHook).unwrap();
    victim.modules.clear();
    let error = victim.hook(&NopHook, &mut data, 5).unwrap_err();
    assert_eq!(error, MemOpError::new("module not found"));
    assert_eq!(data.addr, None);
}

#[test]
fn install_hands_on_the_failure_to_build() {
    struct Broken;
    impl HookImpl for Broken {
        fn pattern(&self) -> &'static [Byte] {
            &NOPS
        }
        fn build_hook(&self, _hook_data: &HookData) -> MemOpResult<Vec<u8>> {
            Err(MemOpError::new("no trampoline"))
        }
    }
    let mut victim = Victim::new();
    let mut data = victim.create(&Broken).unwrap();
    let error = victim.hook(&Broken, &mut data, 5).unwrap_err();
    assert_eq!(error, MemOpError::new("no trampoline"));
    assert_eq!(data.addr, Some(MODULE_BASE + PATCH_OFFSET));
    assert_eq!(victim.peek(MODULE_BASE + PATCH_OFFSET, 5), ORIGINAL.to_vec());
}

#[test]
fn listing_leaves_out_modules_without_a_name() {
    let mut victim = Victim::new();
    victim.modules.insert(1, (vec![0xC3, 0x28], 0x1111, 0x10));
    victim.modules.push((vec![], 0x2222, 0x10));
    let (mut listing, mut op) = Enumerate::start(Some(1));
    let modules = loop {
        let reply = victim.call(op, &[]);
        match listing.step(reply) {
            Step::Perform(next) => op = next,
            Step::Finished(result) => break result.unwrap(),
        }
    };
    let names: Vec<&str> = modules.modules.iter().map(|m| m.name.as_str()).collect();
    assert_eq!(names, vec!["C:\\Windows\\System32\\kernel32.dll", "C:\\Games\\Zhol.exe"]);
    assert_eq!(modules.modules[1].module, MODULE_BASE);
    assert_eq!(modules.modules[1].base, MODULE_BASE);
    assert_eq!(modules.modules[1].size, 0x100);
}

#[test]
fn listing_of_no_modules_is_empty() {
    let (mut listing, first) = Enumerate::start(None);
    assert_eq!(first, Op::EnumModules { timeout: None });
    match listing.step(Ok(Reply::Modules(vec![]))) {
        Step::Finished(Ok(list)) => assert!(list.modules.is_empty()),
        other => panic!("{:?}", other),
    }
}

#[test]
fn typed_access_refuses_an_address_beyond_the_last() {
    let mut victim = Victim::new();
    victim.var_addr = usize::MAX - 1;
    let context = MemOpContext::new(0, 8, false, None);
    assert_eq!(
        victim.read_i32(&context).unwrap_err(),
        MemOpError::new("The address lies beyond the address space.")
    );
    assert!(!victim.lock_held);
}
