//! The record of a hook, what a hook's author supplies, and the steps that
//! install and remove it.

use crate::error::{decimal, to_decimal, ErrorModel, MemOpError, MemOpResult};
use crate::memory::utils::PAGE_READWRITE;
use crate::memory::{
    read_at, refuse_reply, unexpected_reply, write_at, Byte, MemOpContext, Memory, MemoryRegion,
    Op, Reply, Step, StepModel,
};
use crate::process::pattern::{
    create_unhook_bytes, find_first_match, first_match, lemma_first_match_matches,
    lemma_unhook_bytes_of_match, matches_at, unhook_bytes,
};
use crate::trampoline::{handle_x86_asm_build, inbound_jump, newmem_jmp};
use vstd::prelude::*;
use vstd::string::StringExecFns;

verus! {

/// The runtime record of a hook.
#[derive(Debug, PartialEq, Eq)]
pub struct HookData {
    /// The base of the module that holds the patch site.
    pub module_addr: usize,
    /// The cave: the region that receives the trampoline.
    pub hook_mem: MemoryRegion,
    /// The region that the hook's variables live in.
    pub var_mem: MemoryRegion,
    /// The signature that identifies the patch site.
    pub pattern: Vec<Byte>,
    /// The size of the variable region.
    pub var_size: usize,
    /// The size of the cave.
    pub hook_alloc_size: usize,
    /// The address of the patch site, once it was found.
    pub addr: Option<usize>,
    /// The bytes that lay at the patch site when it was found.
    pub found_bytes: Option<Vec<u8>>,
}

/// The mathematical value of a `HookData`.
pub struct HookDataModel {
    pub module_addr: usize,
    pub hook_mem: MemoryRegion,
    pub var_mem: MemoryRegion,
    pub pattern: Seq<Byte>,
    pub var_size: usize,
    pub hook_alloc_size: usize,
    pub addr: Option<usize>,
    pub found_bytes: Option<Seq<u8>>,
}

impl View for HookData {
    type V = HookDataModel;

    open spec fn view(&self) -> HookDataModel {
        HookDataModel {
            module_addr: self.module_addr,
            hook_mem: self.hook_mem,
            var_mem: self.var_mem,
            pattern: self.pattern@,
            var_size: self.var_size,
            hook_alloc_size: self.hook_alloc_size,
            addr: self.addr,
            found_bytes: match self.found_bytes {
                Some(bytes) => Some(bytes@),
                None => None,
            },
        }
    }
}

/// The error of a scan whose match lies beyond the last address.
pub open spec fn address_overflow() -> ErrorModel {
    ErrorModel::Other { chain: seq!["The patch site lies beyond the address space."@] }
}

impl HookDataModel {
    /// The captured bytes, where there are any, are as many as the
    /// signature has positions, and both regions have a base address.
    pub open spec fn well_formed(&self) -> bool {
        &&& self.found_bytes matches Some(bytes) ==> bytes.len() == self.pattern.len()
        &&& self.hook_mem.well_formed()
        &&& self.var_mem.well_formed()
    }

    /// The record after the image of the module at `base` was scanned: it
    /// knows the patch site and what lay there, where the signature was
    /// found, and is as before where it was not.
    pub open spec fn scanned(&self, base: usize, image: Seq<u8>) -> HookDataModel {
        match first_match(image, self.pattern) {
            Some(offset) if base + offset <= usize::MAX => HookDataModel {
                addr: Some((base + offset) as usize),
                found_bytes: Some(image.subrange(offset, offset + self.pattern.len())),
                ..*self
            },
            _ => *self,
        }
    }

    /// What the scan of the image of the module at `base` reports.
    pub open spec fn scan_result(&self, base: usize, image: Seq<u8>) -> Result<(), ErrorModel> {
        match first_match(image, self.pattern) {
            None => Err(ErrorModel::PatternNotFound),
            Some(offset) => if base + offset <= usize::MAX {
                Ok(())
            } else {
                Err(address_overflow())
            },
        }
    }
}

impl HookData {
    /// The captured bytes, where there are any, are as many as the
    /// signature has positions, and both regions have a base address.
    pub open spec fn well_formed(&self) -> bool {
        self@.well_formed()
    }

    /// Takes the image of the module that lies at `base` and looks for the
    /// signature in it. The first match becomes the patch site, and the
    /// bytes that lie there are kept for the uninstall. Where the signature
    /// does not occur the scan fails with `PatternNotFound` and the record
    /// stays as it was.
    pub fn record_scan(&mut self, base: usize, image: &Vec<u8>) -> (result: MemOpResult<()>)
        ensures
            final(self)@ == old(self)@.scanned(base, image@),
            match result {
                Ok(()) => old(self)@.scan_result(base, image@) is Ok,
                Err(error) => old(self)@.scan_result(base, image@) == Err::<(), ErrorModel>(
                    error@,
                ),
            },
            old(self).well_formed() ==> final(self).well_formed(),
    {
        proof {
            lemma_first_match_matches(image@, self.pattern@);
        }
        match find_first_match(image, &self.pattern) {
            None => Err(MemOpError::PatternNotFound),
            Some((offset, captured)) => {
                match base.checked_add(offset) {
                    None => Err(
                        MemOpError::new("The patch site lies beyond the address space."),
                    ),
                    Some(addr) => {
                        self.addr = Some(addr);
                        self.found_bytes = Some(captured);
                        Ok(())
                    },
                }
            },
        }
    }

    /// The error of `get_addr` where no patch site is known.
    pub open spec fn no_addr_error() -> ErrorModel {
        ErrorModel::Other {
            chain: seq!["get_addr() called without pattern scanned and injection point found."@],
        }
    }

    /// The record of a hook that was not installed yet.
    pub fn new(
        module_addr: usize,
        hook_mem: MemoryRegion,
        var_mem: MemoryRegion,
        pattern: Vec<Byte>,
        var_size: usize,
        hook_alloc_size: usize,
    ) -> (data: HookData)
        ensures
            data.module_addr == module_addr,
            data.hook_mem == hook_mem,
            data.var_mem == var_mem,
            data.pattern == pattern,
            data.var_size == var_size,
            data.hook_alloc_size == hook_alloc_size,
            data.addr is None,
            data.found_bytes is None,
    {
        HookData {
            module_addr,
            hook_mem,
            var_mem,
            pattern,
            var_size,
            hook_alloc_size,
            addr: None,
            found_bytes: None,
        }
    }

    /// The address of the patch site, or an error where none was found yet.
    pub fn get_addr(&self) -> (result: MemOpResult<usize>)
        ensures
            self.addr matches Some(addr) ==> result == Ok::<usize, MemOpError>(addr),
            self.addr is None ==> result is Err && result->Err_0@ == Self::no_addr_error(),
    {
        match self.addr {
            Some(addr) => Ok(addr),
            None => Err(
                MemOpError::new(
                    "get_addr() called without pattern scanned and injection point found.",
                ),
            ),
        }
    }

    /// The error of `get_nth_unhook_byte` where nothing was captured.
    pub open spec fn no_unhook_bytes() -> ErrorModel {
        ErrorModel::Other {
            chain: seq!["Unhook bytes called without pattern scanning and finding a match."@],
        }
    }

    /// The error of `get_nth_unhook_byte` for an index beyond the captured
    /// bytes.
    pub open spec fn out_of_range(index: usize) -> ErrorModel {
        ErrorModel::Other {
            chain: seq!["Index \""@ + decimal(index as nat) + "\" not in range unhookbytes."@],
        }
    }

    /// The byte that lay at `index` of the patch site when it was found.
    pub fn get_nth_unhook_byte(&self, index: usize) -> (result: MemOpResult<u8>)
        ensures
            match self@.found_bytes {
                None => result is Err && result->Err_0@ == Self::no_unhook_bytes(),
                Some(found) => if index < found.len() {
                    result == Ok::<u8, MemOpError>(found[index as int])
                } else {
                    result is Err && result->Err_0@ == Self::out_of_range(index)
                },
            },
    {
        match &self.found_bytes {
            None => Err(
                MemOpError::new(
                    "Unhook bytes called without pattern scanning and finding a match.",
                ),
            ),
            Some(found) => {
                if index < found.len() {
                    Ok(found[index])
                } else {
                    let mut message = "Index \"".to_owned();
                    message.append(to_decimal(index as u64).as_str());
                    message.append("\" not in range unhookbytes.");
                    Err(MemOpError::new(message.as_str()))
                }
            },
        }
    }

    /// The context of a memory operation that starts at the hook's
    /// variable region.
    pub fn ctx(&self, offset: usize, at_pointer: bool, timeout: Option<u64>) -> (context:
        MemOpContext)
        ensures
            context == (MemOpContext { addr: self.var_mem.addr, offset, at_pointer, timeout }),
    {
        MemOpContext::new(self.var_mem.addr, offset, at_pointer, timeout)
    }

    /// The number of bytes of the jump that `hook_impl` writes over the
    /// patch site.
    pub fn get_jmp_size<T: HookImpl + ?Sized>(&self, hook_impl: &T) -> (result: MemOpResult<usize>)
        ensures
            exists|built: MemOpResult<Vec<u8>>|
                call_ensures(T::build_jmp, (hook_impl, self), built) && match built {
                    Ok(bytes) => result == Ok::<usize, MemOpError>(bytes@.len() as usize),
                    Err(error) => result == Err::<usize, MemOpError>(error),
                },
    {
        jump_size(hook_impl.build_jmp(self))
    }
}

/// The number of bytes of a jump that was built, or the failure to build
/// it.
pub fn jump_size(built: MemOpResult<Vec<u8>>) -> (result: MemOpResult<usize>)
    ensures
        match built {
            Ok(bytes) => result == Ok::<usize, MemOpError>(bytes@.len() as usize),
            Err(error) => result == Err::<usize, MemOpError>(error),
        },
{
    match built {
        Ok(bytes) => Ok(bytes.len()),
        Err(error) => Err(error),
    }
}

/// What the author of a hook supplies: where to patch, and what to put
/// there.
pub trait HookImpl {
    /// The signature that identifies the patch site.
    fn pattern(&self) -> &'static [Byte];

    /// The size of the variable region.
    fn var_size(&self) -> (size: usize)
        default_ensures
            size == 4,
    {
        0x4
    }

    /// The size of the cave.
    fn hook_alloc_size(&self) -> (size: usize)
        default_ensures
            size == 0x1000,
    {
        0x1000
    }

    /// The module that is searched for the signature.
    fn module_name(&self) -> (name: &'static str)
        default_ensures
            name@ == "Zhol.exe"@,
    {
        "Zhol.exe"
    }

    /// The bytes that are written over the patch site: unless an author
    /// decides otherwise, the five bytes of a relative jump into the cave.
    fn build_jmp(&self, hook_data: &HookData) -> (result: MemOpResult<Vec<u8>>)
        default_ensures
            hook_data.addr is None ==> result is Err && result->Err_0@
                == HookData::no_addr_error(),
            hook_data.addr matches Some(addr) ==> {
                &&& result matches Ok(bytes) ==> bytes@ == inbound_jump(
                    hook_data.hook_mem.addr as int,
                    addr as int,
                )
                &&& result matches Err(e) ==> e@ == (ErrorModel::Other {
                    chain: seq!["Could not set up the assembler."@],
                })
            },
    {
        let ops = newmem_jmp(hook_data)?;
        handle_x86_asm_build(ops)
    }

    /// The bytes of the trampoline that goes into the cave.
    fn build_hook(&self, hook_data: &HookData) -> MemOpResult<Vec<u8>>;
}

/// The outcome of a `BuildHook` request for a trampoline that was built:
/// both payloads where the jump was built too, else the failure to build
/// the jump.
pub fn built_reply(hook_bytes: Vec<u8>, jump: MemOpResult<Vec<u8>>) -> (reply: MemOpResult<Reply>)
    ensures
        match jump {
            Ok(jump_bytes) => reply == Ok::<Reply, MemOpError>(
                Reply::Built { hook_bytes, jump_bytes },
            ),
            Err(error) => reply == Err::<Reply, MemOpError>(error),
        },
{
    match jump {
        Ok(jump_bytes) => Ok(Reply::Built { hook_bytes, jump_bytes }),
        Err(error) => Err(error),
    }
}

/// Calls on the hook's author for the trampoline and, where that was
/// built, for the jump that goes over the patch site, and hands both on as
/// the outcome of a `BuildHook` request. The first failure is the outcome.
pub fn build_payloads<H: HookImpl + ?Sized>(hook_impl: &H, hook_data: &HookData) -> (reply:
    MemOpResult<Reply>)
    ensures
        reply matches Ok(built) ==> built is Built,
        exists|hook: MemOpResult<Vec<u8>>|
            call_ensures(H::build_hook, (hook_impl, hook_data), hook) && match hook {
                Err(error) => reply == Err::<Reply, MemOpError>(error),
                Ok(hook_bytes) => exists|jump: MemOpResult<Vec<u8>>|
                    call_ensures(H::build_jmp, (hook_impl, hook_data), jump) && match jump {
                        Err(error) => reply == Err::<Reply, MemOpError>(error),
                        Ok(jump_bytes) => reply == Ok::<Reply, MemOpError>(
                            Reply::Built { hook_bytes, jump_bytes },
                        ),
                    },
            },
{
    match hook_impl.build_hook(hook_data) {
        Ok(hook_bytes) => built_reply(hook_bytes, hook_impl.build_jmp(hook_data)),
        Err(error) => Err(error),
    }
}

/// Where an install stands.
#[derive(Clone, Copy, Debug, PartialEq, Eq, Structural)]
pub enum InstallStage {
    /// The module is being looked up.
    Resolving,
    /// The place of the module is being asked for.
    Locating,
    /// The image of the module is being made readable.
    Unprotecting,
    /// The image of the module is being read.
    Reading,
    /// The trampoline and the jump are being built.
    Building,
    /// The trampoline is being written into the cave.
    WritingCave,
    /// The jump is being written over the patch site.
    WritingPatch,
    /// The install is over.
    Over,
}

/// The install of a hook.
///
/// The module is looked up and its image is read. The signature is searched
/// in the image, which fixes the patch site. The author's trampoline is
/// written into the cave, and only when that is done is the jump written
/// over the patch site.
#[derive(Debug, PartialEq, Eq)]
pub struct Install {
    /// The time that the lookup and each write may take, in nanoseconds.
    pub timeout: u64,
    /// Where the install stands.
    pub stage: InstallStage,
    /// The base address of the module, once known.
    pub base: usize,
    /// The size of the module's image, once known.
    pub size: usize,
    /// The bytes of the write that is under way.
    pub payload: Vec<u8>,
    /// The jump, until it is written.
    pub pending: Vec<u8>,
}

/// The mathematical value of an `Install`.
pub struct InstallModel {
    pub timeout: u64,
    pub stage: InstallStage,
    pub base: usize,
    pub size: usize,
    pub payload: Seq<u8>,
    pub pending: Seq<u8>,
}

impl View for Install {
    type V = InstallModel;

    open spec fn view(&self) -> InstallModel {
        InstallModel {
            timeout: self.timeout,
            stage: self.stage,
            base: self.base,
            size: self.size,
            payload: self.payload@,
            pending: self.pending@,
        }
    }
}

/// The error of an install or a creation whose module is not loaded.
pub open spec fn module_not_found() -> ErrorModel {
    ErrorModel::Other { chain: seq!["module not found"@] }
}

/// The error of an install that has no patch site when it is to write the
/// jump.
pub open spec fn no_inject_point() -> ErrorModel {
    ErrorModel::Other {
        chain: seq!["Inject point address was not found. This should not be possible."@],
    }
}

impl InstallModel {
    /// The install at another stage.
    pub open spec fn at(&self, stage: InstallStage) -> InstallModel {
        InstallModel { stage, ..*self }
    }

    /// The request that writes `size` bytes of payload to `addr`.
    pub open spec fn write(&self, addr: usize, size: nat) -> Op {
        Op::WriteBytes { addr, size: size as usize, timeout: Some(self.timeout) }
    }

    /// What the install does with an outcome: the install and the hook's
    /// record afterwards, and the install's answer.
    pub open spec fn next(&self, data: HookDataModel, reply: MemOpResult<Reply>) -> (
        InstallModel,
        HookDataModel,
        StepModel<()>,
    ) {
        match (self.stage, reply) {
            (InstallStage::Over, _) => (*self, data, StepModel::Finished(Err(unexpected_reply()))),
            (_, Err(error)) => (
                self.at(InstallStage::Over),
                data,
                StepModel::Finished(Err(error@)),
            ),
            (InstallStage::Resolving, Ok(Reply::Module(Some(module)))) => (
                self.at(InstallStage::Locating),
                data,
                StepModel::Perform(Op::ModuleInfo { module, timeout: None }),
            ),
            (InstallStage::Resolving, Ok(Reply::Module(None))) => (
                self.at(InstallStage::Over),
                data,
                StepModel::Finished(Err(module_not_found())),
            ),
            (InstallStage::Locating, Ok(Reply::Image { base, size })) => (
                InstallModel { stage: InstallStage::Unprotecting, base, size, ..*self },
                data,
                StepModel::Perform(
                    Op::Protect { addr: base, size, protection: PAGE_READWRITE, timeout: None },
                ),
            ),
            (InstallStage::Unprotecting, Ok(Reply::Protection(_))) => (
                self.at(InstallStage::Reading),
                data,
                StepModel::Perform(
                    Op::ReadBytes { addr: self.base, size: self.size, timeout: None },
                ),
            ),
            (InstallStage::Reading, Ok(Reply::Data(image))) => match data.scan_result(
                self.base,
                image@,
            ) {
                Ok(()) => (
                    self.at(InstallStage::Building),
                    data.scanned(self.base, image@),
                    StepModel::Perform(Op::BuildHook),
                ),
                Err(error) => (self.at(InstallStage::Over), data, StepModel::Finished(Err(error))),
            },
            (InstallStage::Building, Ok(Reply::Built { hook_bytes, jump_bytes })) => (
                InstallModel {
                    stage: InstallStage::WritingCave,
                    payload: hook_bytes@,
                    pending: jump_bytes@,
                    ..*self
                },
                data,
                StepModel::Perform(self.write(data.hook_mem.addr, hook_bytes@.len())),
            ),
            (InstallStage::WritingCave, Ok(Reply::Done)) => match data.addr {
                Some(addr) => (
                    InstallModel {
                        stage: InstallStage::WritingPatch,
                        payload: self.pending,
                        pending: Seq::empty(),
                        ..*self
                    },
                    data,
                    StepModel::Perform(self.write(addr, self.pending.len())),
                ),
                None => (
                    self.at(InstallStage::Over),
                    data,
                    StepModel::Finished(Err(no_inject_point())),
                ),
            },
            (InstallStage::WritingPatch, Ok(Reply::Done)) => (
                self.at(InstallStage::Over),
                data,
                StepModel::Finished(Ok(())),
            ),
            _ => (self.at(InstallStage::Over), data, StepModel::Finished(Err(unexpected_reply()))),
        }
    }
}

impl Install {
    /// Begins an install: hands out the install and its first request, the
    /// lookup of the module by the last segment of its path.
    pub fn start(timeout: u64) -> (begun: (Install, Op))
        ensures
            begun.0@ == (InstallModel {
                timeout,
                stage: InstallStage::Resolving,
                base: 0,
                size: 0,
                payload: Seq::empty(),
                pending: Seq::empty(),
            }),
            begun.1 == (Op::FindModule { stem: true, timeout: Some(timeout) }),
    {
        let install = Install {
            timeout,
            stage: InstallStage::Resolving,
            base: 0,
            size: 0,
            payload: Vec::new(),
            pending: Vec::new(),
        };
        (install, Op::FindModule { stem: true, timeout: Some(timeout) })
    }

    /// The bytes that a `WriteBytes` request of this install refers to.
    pub fn payload(&self) -> (bytes: &Vec<u8>)
        ensures
            bytes@ == self@.payload,
    {
        &self.payload
    }

    /// Takes the outcome of the request that was handed out last and
    /// answers with the next request or with the result of the install.
    /// The hook's record is brought up to date on the way.
    pub fn step(&mut self, data: &mut HookData, reply: MemOpResult<Reply>) -> (step: Step<()>)
        ensures
            (final(self)@, final(data)@, step@) == old(self)@.next(old(data)@, reply),
    {
        match self.stage {
            InstallStage::Over => refuse_reply(),
            stage => {
                match reply {
                    Err(error) => {
                        self.stage = InstallStage::Over;
                        Step::Finished(Err(error))
                    },
                    Ok(reply) => {
                        match (stage, reply) {
                            (InstallStage::Resolving, Reply::Module(Some(module))) => {
                                self.stage = InstallStage::Locating;
                                Step::Perform(Op::ModuleInfo { module, timeout: None })
                            },
                            (InstallStage::Resolving, Reply::Module(None)) => {
                                self.stage = InstallStage::Over;
                                Step::Finished(Err(MemOpError::new("module not found")))
                            },
                            (InstallStage::Locating, Reply::Image { base, size }) => {
                                self.base = base;
                                self.size = size;
                                self.stage = InstallStage::Unprotecting;
                                Step::Perform(
                                    Op::Protect {
                                        addr: base,
                                        size,
                                        protection: PAGE_READWRITE,
                                        timeout: None,
                                    },
                                )
                            },
                            (InstallStage::Unprotecting, Reply::Protection(_)) => {
                                self.stage = InstallStage::Reading;
                                Step::Perform(
                                    Op::ReadBytes { addr: self.base, size: self.size, timeout: None },
                                )
                            },
                            (InstallStage::Reading, Reply::Data(image)) => {
                                match data.record_scan(self.base, &image) {
                                    Ok(()) => {
                                        self.stage = InstallStage::Building;
                                        Step::Perform(Op::BuildHook)
                                    },
                                    Err(error) => {
                                        self.stage = InstallStage::Over;
                                        Step::Finished(Err(error))
                                    },
                                }
                            },
                            (InstallStage::Building, Reply::Built { hook_bytes, jump_bytes }) => {
                                let size = hook_bytes.len();
                                self.payload = hook_bytes;
                                self.pending = jump_bytes;
                                self.stage = InstallStage::WritingCave;
                                Step::Perform(
                                    Op::WriteBytes {
                                        addr: data.hook_mem.addr,
                                        size,
                                        timeout: Some(self.timeout),
                                    },
                                )
                            },
                            (InstallStage::WritingCave, Reply::Done) => {
                                match data.addr {
                                    Some(addr) => {
                                        let mut jump: Vec<u8> = Vec::new();
                                        core::mem::swap(&mut jump, &mut self.pending);
                                        let size = jump.len();
                                        self.payload = jump;
                                        self.stage = InstallStage::WritingPatch;
                                        Step::Perform(
                                            Op::WriteBytes {
                                                addr,
                                                size,
                                                timeout: Some(self.timeout),
                                            },
                                        )
                                    },
                                    None => {
                                        self.stage = InstallStage::Over;
                                        Step::Finished(
                                            Err(
                                                MemOpError::new(
                                                    "Inject point address was not found. This should not be possible.",
                                                ),
                                            ),
                                        )
                                    },
                                }
                            },
                            (InstallStage::WritingPatch, Reply::Done) => {
                                self.stage = InstallStage::Over;
                                Step::Finished(Ok(()))
                            },
                            _ => {
                                self.stage = InstallStage::Over;
                                refuse_reply()
                            },
                        }
                    },
                }
            },
        }
    }
}

/// The removal of a hook: one write that puts the bytes back over the patch
/// site.
#[derive(Debug, PartialEq, Eq)]
pub struct Uninstall {
    /// The bytes that restore the patch site.
    pub payload: Vec<u8>,
    /// Whether the write is still awaited.
    pub writing: bool,
}

/// The mathematical value of an `Uninstall`.
pub struct UninstallModel {
    pub payload: Seq<u8>,
    pub writing: bool,
}

impl View for Uninstall {
    type V = UninstallModel;

    open spec fn view(&self) -> UninstallModel {
        UninstallModel { payload: self.payload@, writing: self.writing }
    }
}

/// The error of a removal that knows a patch site but not what lay there.
pub open spec fn unhook_without_scan() -> ErrorModel {
    ErrorModel::Other { chain: seq!["unhook without prior scan"@] }
}

impl UninstallModel {
    /// How the removal of the hook with the record `data` begins. Without
    /// a patch site there is nothing to remove and the removal is over at
    /// once. Else the bytes that restore the patch site are written over
    /// it.
    pub open spec fn begin(data: HookDataModel, timeout: u64) -> (UninstallModel, StepModel<()>) {
        match (data.addr, data.found_bytes) {
            (None, _) => (
                UninstallModel { payload: Seq::empty(), writing: false },
                StepModel::Finished(Ok(())),
            ),
            (Some(_), None) => (
                UninstallModel { payload: Seq::empty(), writing: false },
                StepModel::Finished(Err(unhook_without_scan())),
            ),
            (Some(addr), Some(found)) => (
                UninstallModel { payload: unhook_bytes(data.pattern, found), writing: true },
                StepModel::Perform(
                    Op::WriteBytes {
                        addr,
                        size: unhook_bytes(data.pattern, found).len() as usize,
                        timeout: Some(timeout),
                    },
                ),
            ),
        }
    }

    /// What the removal does with the outcome of its write.
    pub open spec fn next(&self, reply: MemOpResult<Reply>) -> (UninstallModel, StepModel<()>) {
        let over = UninstallModel { writing: false, ..*self };
        if !self.writing {
            (*self, StepModel::Finished(Err(unexpected_reply())))
        } else {
            match reply {
                Err(error) => (over, StepModel::Finished(Err(error@))),
                Ok(Reply::Done) => (over, StepModel::Finished(Ok(()))),
                Ok(_) => (over, StepModel::Finished(Err(unexpected_reply()))),
            }
        }
    }
}

impl Uninstall {
    /// Begins the removal of the hook with the record `data`: hands out
    /// the removal and its first answer.
    pub fn start(data: &HookData, timeout: u64) -> (begun: (Uninstall, Step<()>))
        ensures
            (begun.0@, begun.1@) == UninstallModel::begin(data@, timeout),
    {
        match data.addr {
            None => (Uninstall { payload: Vec::new(), writing: false }, Step::Finished(Ok(()))),
            Some(addr) => {
                match &data.found_bytes {
                    None => (
                        Uninstall { payload: Vec::new(), writing: false },
                        Step::Finished(Err(MemOpError::new("unhook without prior scan"))),
                    ),
                    Some(found) => {
                        let payload = create_unhook_bytes(
                            data.pattern.as_slice(),
                            found.as_slice(),
                        );
                        let size = payload.len();
                        (
                            Uninstall { payload, writing: true },
                            Step::Perform(
                                Op::WriteBytes { addr, size, timeout: Some(timeout) },
                            ),
                        )
                    },
                }
            },
        }
    }

    /// The bytes that the `WriteBytes` request of this removal refers to.
    pub fn payload(&self) -> (bytes: &Vec<u8>)
        ensures
            bytes@ == self@.payload,
    {
        &self.payload
    }

    /// Takes the outcome of the write and answers with the result of the
    /// removal.
    pub fn step(&mut self, reply: MemOpResult<Reply>) -> (step: Step<()>)
        ensures
            (final(self)@, step@) == old(self)@.next(reply),
    {
        if !self.writing {
            return refuse_reply();
        }
        self.writing = false;
        match reply {
            Err(error) => Step::Finished(Err(error)),
            Ok(Reply::Done) => Step::Finished(Ok(())),
            Ok(_) => refuse_reply(),
        }
    }
}

/// The time that the handle may be waited for when memory is allocated:
/// ten milliseconds, in nanoseconds.
pub const ALLOCATE_TIMEOUT_NANOS: u64 = 10_000_000;

/// Where the creation of a hook stands.
#[derive(Clone, Copy, Debug, PartialEq, Eq, Structural)]
pub enum CreateStage {
    /// The module is being looked up.
    Resolving,
    /// The cave is being allocated.
    AllocatingCave,
    /// The variable region is being allocated.
    AllocatingVars,
    /// The cave is being given back because the variable region could not
    /// be had.
    Releasing,
    /// The creation is over.
    Over,
}

/// The creation of a hook: the module is looked up, and the cave and the
/// variable region are allocated in the victim.
#[derive(Debug, PartialEq, Eq)]
pub struct Create {
    /// The signature of the hook.
    pub pattern: Vec<Byte>,
    /// The size of the variable region.
    pub var_size: usize,
    /// The size of the cave.
    pub hook_alloc_size: usize,
    /// Where the creation stands.
    pub stage: CreateStage,
    /// The module, once found.
    pub module: usize,
    /// The address of the cave, once allocated.
    pub cave: usize,
    /// Why the creation fails, while the cave is given back.
    pub failure: Option<MemOpError>,
}

/// The mathematical value of a `Create`.
pub struct CreateModel {
    pub pattern: Seq<Byte>,
    pub var_size: usize,
    pub hook_alloc_size: usize,
    pub stage: CreateStage,
    pub module: usize,
    pub cave: usize,
    pub failure: Option<ErrorModel>,
}

impl View for Create {
    type V = CreateModel;

    open spec fn view(&self) -> CreateModel {
        CreateModel {
            pattern: self.pattern@,
            var_size: self.var_size,
            hook_alloc_size: self.hook_alloc_size,
            stage: self.stage,
            module: self.module,
            cave: self.cave,
            failure: match self.failure {
                Some(error) => Some(error@),
                None => None,
            },
        }
    }
}

/// The error of a creation whose allocation came back without an address.
pub open spec fn no_allocation() -> ErrorModel {
    ErrorModel::Other { chain: seq!["The allocation returned no address."@] }
}

impl CreateModel {
    /// The creation at another stage.
    pub open spec fn at(&self, stage: CreateStage) -> CreateModel {
        CreateModel { stage, ..*self }
    }

    /// The request that allocates `size` bytes.
    pub open spec fn allocate(size: usize) -> Op {
        Op::Allocate { size, timeout: Some(ALLOCATE_TIMEOUT_NANOS) }
    }

    /// The creation while the cave is given back because of `error`.
    pub open spec fn releasing(&self, error: ErrorModel) -> (CreateModel, StepModel<HookDataModel>) {
        (
            CreateModel { stage: CreateStage::Releasing, failure: Some(error), ..*self },
            StepModel::Perform(Op::Free { addr: self.cave, size: self.hook_alloc_size }),
        )
    }

    /// The record of the hook that the creation ends with, the variable
    /// region at `vars`.
    pub open spec fn record(&self, vars: usize) -> HookDataModel {
        HookDataModel {
            module_addr: self.module,
            hook_mem: MemoryRegion { addr: self.cave, size: self.hook_alloc_size, released: false },
            var_mem: MemoryRegion { addr: vars, size: self.var_size, released: false },
            pattern: self.pattern,
            var_size: self.var_size,
            hook_alloc_size: self.hook_alloc_size,
            addr: None,
            found_bytes: None,
        }
    }

    /// What the creation does with an outcome: the creation afterwards, and
    /// its answer.
    pub open spec fn next(&self, reply: MemOpResult<Reply>) -> (CreateModel, StepModel<HookDataModel>) {
        match (self.stage, reply) {
            (CreateStage::Over, _) => (*self, StepModel::Finished(Err(unexpected_reply()))),
            (CreateStage::Releasing, _) => (
                CreateModel { stage: CreateStage::Over, failure: None, ..*self },
                StepModel::Finished(
                    Err(
                        match self.failure {
                            Some(error) => error,
                            None => unexpected_reply(),
                        },
                    ),
                ),
            ),
            (CreateStage::AllocatingVars, Err(error)) => self.releasing(error@),
            (_, Err(error)) => (self.at(CreateStage::Over), StepModel::Finished(Err(error@))),
            (CreateStage::Resolving, Ok(Reply::Module(Some(module)))) => (
                CreateModel { stage: CreateStage::AllocatingCave, module, ..*self },
                StepModel::Perform(Self::allocate(self.hook_alloc_size)),
            ),
            (CreateStage::Resolving, Ok(Reply::Module(None))) => (
                self.at(CreateStage::Over),
                StepModel::Finished(Err(module_not_found())),
            ),
            (CreateStage::AllocatingCave, Ok(Reply::Allocated(addr))) => if addr == 0 {
                (self.at(CreateStage::Over), StepModel::Finished(Err(no_allocation())))
            } else {
                (
                    CreateModel { stage: CreateStage::AllocatingVars, cave: addr, ..*self },
                    StepModel::Perform(Self::allocate(self.var_size)),
                )
            },
            (CreateStage::AllocatingVars, Ok(Reply::Allocated(addr))) => if addr == 0 {
                self.releasing(no_allocation())
            } else {
                (
                    CreateModel { stage: CreateStage::Over, pattern: Seq::empty(), ..*self },
                    StepModel::Finished(Ok(self.record(addr))),
                )
            },
            (CreateStage::AllocatingVars, Ok(_)) => self.releasing(unexpected_reply()),
            _ => (self.at(CreateStage::Over), StepModel::Finished(Err(unexpected_reply()))),
        }
    }
}

impl Create {
    /// Begins the creation of a hook with the given signature and sizes:
    /// hands out the creation and its first request, the lookup of the
    /// module by the last segment of its path.
    pub fn start(pattern: Vec<Byte>, var_size: usize, hook_alloc_size: usize) -> (begun: (
        Create,
        Op,
    ))
        ensures
            begun.0@ == (CreateModel {
                pattern: pattern@,
                var_size,
                hook_alloc_size,
                stage: CreateStage::Resolving,
                module: 0,
                cave: 0,
                failure: None,
            }),
            begun.1 == (Op::FindModule { stem: true, timeout: None }),
    {
        let create = Create {
            pattern,
            var_size,
            hook_alloc_size,
            stage: CreateStage::Resolving,
            module: 0,
            cave: 0,
            failure: None,
        };
        (create, Op::FindModule { stem: true, timeout: None })
    }

    fn release(&mut self, error: MemOpError) -> (step: Step<HookData>)
        ensures
            (final(self)@, step@) == old(self)@.releasing(error@),
    {
        self.failure = Some(error);
        self.stage = CreateStage::Releasing;
        Step::Perform(Op::Free { addr: self.cave, size: self.hook_alloc_size })
    }

    /// Takes the outcome of the request that was handed out last and
    /// answers with the next request or with the record of the new hook.
    pub fn step(&mut self, reply: MemOpResult<Reply>) -> (step: Step<HookData>)
        ensures
            (final(self)@, step@) == old(self)@.next(reply),
    {
        match self.stage {
            CreateStage::Over => refuse_reply(),
            CreateStage::Releasing => {
                let mut failure: Option<MemOpError> = None;
                core::mem::swap(&mut failure, &mut self.failure);
                self.stage = CreateStage::Over;
                match failure {
                    Some(error) => Step::Finished(Err(error)),
                    None => refuse_reply(),
                }
            },
            CreateStage::AllocatingVars => {
                match reply {
                    Err(error) => self.release(error),
                    Ok(Reply::Allocated(addr)) => {
                        match MemoryRegion::new(addr, self.var_size) {
                            None => self.release(
                                MemOpError::new("The allocation returned no address."),
                            ),
                            Some(var_mem) => {
                                let mut pattern: Vec<Byte> = Vec::new();
                                core::mem::swap(&mut pattern, &mut self.pattern);
                                self.stage = CreateStage::Over;
                                let hook_mem = MemoryRegion {
                                    addr: self.cave,
                                    size: self.hook_alloc_size,
                                    released: false,
                                };
                                Step::Finished(
                                    Ok(
                                        HookData::new(
                                            self.module,
                                            hook_mem,
                                            var_mem,
                                            pattern,
                                            self.var_size,
                                            self.hook_alloc_size,
                                        ),
                                    ),
                                )
                            },
                        }
                    },
                    Ok(_) => self.release(MemOpError::new("The reply does not answer the request.")),
                }
            },
            stage => {
                match reply {
                    Err(error) => {
                        self.stage = CreateStage::Over;
                        Step::Finished(Err(error))
                    },
                    Ok(reply) => {
                        match (stage, reply) {
                            (CreateStage::Resolving, Reply::Module(Some(module))) => {
                                self.module = module;
                                self.stage = CreateStage::AllocatingCave;
                                Step::Perform(
                                    Op::Allocate {
                                        size: self.hook_alloc_size,
                                        timeout: Some(ALLOCATE_TIMEOUT_NANOS),
                                    },
                                )
                            },
                            (CreateStage::Resolving, Reply::Module(None)) => {
                                self.stage = CreateStage::Over;
                                Step::Finished(Err(MemOpError::new("module not found")))
                            },
                            (CreateStage::AllocatingCave, Reply::Allocated(addr)) => {
                                if addr == 0 {
                                    self.stage = CreateStage::Over;
                                    Step::Finished(
                                        Err(MemOpError::new("The allocation returned no address.")),
                                    )
                                } else {
                                    self.cave = addr;
                                    self.stage = CreateStage::AllocatingVars;
                                    Step::Perform(
                                        Op::Allocate {
                                            size: self.var_size,
                                            timeout: Some(ALLOCATE_TIMEOUT_NANOS),
                                        },
                                    )
                                }
                            },
                            _ => {
                                self.stage = CreateStage::Over;
                                refuse_reply()
                            },
                        }
                    },
                }
            },
        }
    }
}

/// Install and uninstall: after the writes of an install and the write of
/// the removal that follows it, the patch site holds the bytes that it held
/// when the image was read, which are the bytes that the scan captured.
///
/// `memory` is the victim's memory before the install and `image` what was
/// read of the module at `base`. The trampoline must not be written over
/// the patch site.
pub proof fn lemma_install_then_uninstall(
    memory: Memory,
    data: HookDataModel,
    base: usize,
    image: Seq<u8>,
    hook_bytes: Seq<u8>,
    jump_bytes: Seq<u8>,
    timeout: u64,
)
    requires
        image == read_at(memory, base as int, image.len()),
        data.scan_result(base, image) is Ok,
        data.hook_mem.addr + hook_bytes.len() <= data.scanned(base, image).addr->Some_0
            || data.scanned(base, image).addr->Some_0 + data.pattern.len()
            <= data.hook_mem.addr,
    ensures
        ({
            let scanned = data.scanned(base, image);
            let addr = scanned.addr->Some_0 as int;
            let installed = write_at(
                write_at(memory, data.hook_mem.addr as int, hook_bytes),
                addr,
                jump_bytes,
            );
            let removed = write_at(installed, addr, UninstallModel::begin(scanned, timeout).0.payload);
            &&& scanned.addr is Some
            &&& scanned.found_bytes is Some
            &&& UninstallModel::begin(scanned, timeout).1 is Perform
            &&& read_at(removed, addr, data.pattern.len()) == scanned.found_bytes->Some_0
            &&& read_at(removed, addr, data.pattern.len()) == read_at(
                memory,
                addr,
                data.pattern.len(),
            )
        }),
{
    lemma_first_match_matches(image, data.pattern);
    let offset = first_match(image, data.pattern)->Some_0;
    let scanned = data.scanned(base, image);
    let addr = scanned.addr->Some_0 as int;
    let found = image.subrange(offset, offset + data.pattern.len());
    lemma_unhook_bytes_of_match(image, data.pattern, offset);
    let payload = UninstallModel::begin(scanned, timeout).0.payload;
    assert(payload == found);
    let installed = write_at(
        write_at(memory, data.hook_mem.addr as int, hook_bytes),
        addr,
        jump_bytes,
    );
    let removed = write_at(installed, addr, payload);
    assert(read_at(removed, addr, data.pattern.len()) =~= found);
    assert forall|i: int| 0 <= i < data.pattern.len() implies read_at(
        memory,
        addr,
        data.pattern.len(),
    )[i] == found[i] by {
        assert(image[offset + i] == memory[base + (offset + i)]);
    }
    assert(read_at(memory, addr, data.pattern.len()) =~= found);
}

/// The order of an install: a write is asked for in two places only. The
/// trampoline goes to the cave when it was built, and the jump goes over
/// the patch site when the write of the trampoline is reported done, never
/// before.
pub proof fn lemma_patch_follows_cave(
    install: InstallModel,
    data: HookDataModel,
    reply: MemOpResult<Reply>,
)
    ensures
        install.next(data, reply).2 matches StepModel::Perform(
            Op::WriteBytes { addr, size, timeout },
        ) ==> {
            ||| install.stage is Building && install.next(data, reply).0.stage is WritingCave
                && addr == data.hook_mem.addr && (reply matches Ok(
                Reply::Built { hook_bytes, jump_bytes },
            ) && install.next(data, reply).0.payload == hook_bytes@ && install.next(
                data,
                reply,
            ).0.pending == jump_bytes@)
            ||| install.stage is WritingCave && reply == Ok::<Reply, MemOpError>(Reply::Done)
                && install.next(data, reply).0.stage is WritingPatch && data.addr == Some(addr)
                && install.next(data, reply).0.payload == install.pending
        },
{
}

/// Pattern not found: an install whose module does not hold the signature
/// ends with `PatternNotFound` when the image was read, and leaves the
/// hook's record as it was, without a patch site where it had none.
pub proof fn lemma_install_without_match(install: InstallModel, data: HookDataModel, image: Vec<u8>)
    requires
        install.stage is Reading,
        forall|offset: int| !matches_at(image@, data.pattern, offset),
    ensures
        install.next(data, Ok(Reply::Data(image))).1 == data,
        install.next(data, Ok(Reply::Data(image))).2 == StepModel::<()>::Finished(
            Err(ErrorModel::PatternNotFound),
        ),
        data.scanned(install.base, image@) == data,
{
}

} // verus!
