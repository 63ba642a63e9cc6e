//! The modules of the victim: their names, and the lookup of one by name.

use crate::error::{ErrorModel, MemOpError, MemOpResult};
use crate::memory::utils::{from_utf8, lemma_text_len, text_len};
use crate::memory::{refuse_reply, unexpected_reply, Op, Reply, Step, StepModel};
use vstd::prelude::*;
use vstd::slice::slice_subrange;
use vstd::string::{StrSliceExecFns, StringExecFns, StringSliceAdditionalSpecFns};
use vstd::utf8::{decode_utf8, encode_utf8, valid_utf8};

verus! {

/// A module of the victim.
#[derive(Debug, PartialEq, Eq)]
pub struct NamedModule {
    /// The path of the module's file.
    pub name: String,
    /// The handle of the module.
    pub module: usize,
    /// The address at which the module's image begins.
    pub base: usize,
    /// The size of the module's image.
    pub size: usize,
}

/// The mathematical value of a `NamedModule`.
pub struct NamedModuleModel {
    pub name: Seq<char>,
    pub module: usize,
    pub base: usize,
    pub size: usize,
}

impl View for NamedModule {
    type V = NamedModuleModel;

    open spec fn view(&self) -> NamedModuleModel {
        NamedModuleModel {
            name: self.name@,
            module: self.module,
            base: self.base,
            size: self.size,
        }
    }
}

/// The modules of the victim, in the order in which it reports them.
#[derive(Debug, PartialEq, Eq)]
pub struct ModuleList {
    /// The modules.
    pub modules: Vec<NamedModule>,
}

impl View for ModuleList {
    type V = Seq<NamedModuleModel>;

    open spec fn view(&self) -> Seq<NamedModuleModel> {
        Seq::new(self.modules@.len(), |i: int| self.modules@[i]@)
    }
}

/// The bytes of a file name in the buffer that received it: what stands
/// before the first zero byte or, without one, the first `length` bytes.
pub open spec fn name_bytes(raw: Seq<u8>, length: u32) -> Seq<u8> {
    if text_len(raw) < raw.len() {
        raw.take(text_len(raw) as int)
    } else if length <= raw.len() {
        raw.take(length as int)
    } else {
        raw
    }
}

/// The file name that the buffer holds. A module without a name, or with a
/// name that is no UTF-8, has none.
pub open spec fn module_name(raw: Seq<u8>, length: u32) -> Option<Seq<char>> {
    if length > 0 && valid_utf8(name_bytes(raw, length)) {
        Some(decode_utf8(name_bytes(raw, length)))
    } else {
        None
    }
}

/// Where the last segment of a path begins: behind its last backslash, or
/// at its start where it has none.
pub open spec fn stem_start(name: Seq<char>) -> int
    decreases name.len(),
{
    if name.len() == 0 {
        0
    } else if name.last() == '\\' {
        name.len() as int
    } else {
        stem_start(name.drop_last())
    }
}

/// The last segment of a path.
pub open spec fn stem_of(name: Seq<char>) -> Seq<char> {
    name.skip(stem_start(name))
}

/// The name under which a module is compared: the last segment of its
/// path where `stem` is set, else the whole path.
pub open spec fn compared_name(name: Seq<char>, stem: bool) -> Seq<char> {
    if stem {
        stem_of(name)
    } else {
        name
    }
}

/// Decodes the file name of a module from the buffer that received it.
pub fn decode_module_name(raw: &Vec<u8>, length: u32) -> (name: Option<String>)
    ensures
        module_name(raw@, length) is Some <==> name is Some,
        name is Some ==> name->Some_0@ == module_name(raw@, length)->Some_0,
{
    if length == 0 {
        return None;
    }
    let mut end: usize = 0;
    while end < raw.len() && raw[end] != 0
        invariant
            end <= raw@.len(),
            forall|k: int| 0 <= k < end ==> raw@[k] != 0,
        decreases raw@.len() - end,
    {
        end += 1;
    }
    proof {
        lemma_text_len(raw@, end as int);
    }
    if end == raw.len() && (length as usize) <= raw.len() {
        end = length as usize;
    }
    let bytes = slice_subrange(raw.as_slice(), 0, end);
    proof {
        assert(bytes@ =~= name_bytes(raw@, length));
    }
    match from_utf8(bytes) {
        Some(text) => {
            proof {
                broadcast use vstd::utf8::decode_utf8_encode_utf8;
                broadcast use vstd::utf8::encode_utf8_decode_utf8;

                assert(encode_utf8(text@) == bytes@);
                assert(decode_utf8(bytes@) == text@);
            }
            Some(text.to_owned())
        },
        None => None,
    }
}

/// Whether two texts are the same.
pub fn same_text(left: &str, right: &str) -> (same: bool)
    ensures
        same == (left@ == right@),
{
    let a = left.as_bytes();
    let b = right.as_bytes();
    if a.len() != b.len() {
        return false;
    }
    let mut i: usize = 0;
    while i < a.len()
        invariant
            i <= a@.len(),
            a@.len() == b@.len(),
            a@ == encode_utf8(left@),
            b@ == encode_utf8(right@),
            forall|k: int| 0 <= k < i ==> a@[k] == b@[k],
        decreases a@.len() - i,
    {
        if a[i] != b[i] {
            return false;
        }
        i += 1;
    }
    proof {
        broadcast use vstd::utf8::encode_utf8_decode_utf8;

        assert(a@ =~= b@);
        assert(decode_utf8(encode_utf8(left@)) == left@);
        assert(decode_utf8(encode_utf8(right@)) == right@);
    }
    true
}

/// The last segment of a path: what follows its last backslash.
pub fn stem(name: &str) -> (last: &str)
    ensures
        last@ == stem_of(name@),
{
    let length = name.unicode_len();
    let mut start: usize = 0;
    let mut index: usize = 0;
    for c in it: name.chars()
        invariant
            it.seq() == name@,
            name@.len() == length,
            index == it.index(),
            start == stem_start(name@.take(it.index() as int)),
            start <= index,
    {
        proof {
            let prefix = name@.take(index + 1);
            assert(prefix.drop_last() =~= name@.take(index as int));
            assert(prefix.last() == c);
        }
        index += 1;
        if c == '\\' {
            start = index;
        }
    }
    proof {
        assert(name@.take(length as int) =~= name@);
        assert(name@.subrange(start as int, length as int) =~= name@.skip(start as int));
    }
    name.substring_char(start, length)
}

/// Finds a module by its name. With `stem`, only the last segment of each
/// module's path is compared. The first module that bears the name is the
/// answer.
pub fn module_by_name(modules: &ModuleList, name: &str, stem: bool) -> (found: Option<usize>)
    ensures
        match found {
            Some(module) => exists|k: int|
                0 <= k < modules@.len() && (#[trigger] modules@[k]).module == module
                    && compared_name(modules@[k].name, stem) == name@ && forall|j: int|
                    0 <= j < k ==> compared_name((#[trigger] modules@[j]).name, stem) != name@,
            None => forall|k: int|
                0 <= k < modules@.len() ==> compared_name((#[trigger] modules@[k]).name, stem)
                    != name@,
        },
{
    let mut i: usize = 0;
    while i < modules.modules.len()
        invariant
            i <= modules.modules@.len(),
            modules@.len() == modules.modules@.len(),
            forall|j: int|
                0 <= j < i ==> compared_name((#[trigger] modules@[j]).name, stem) != name@,
        decreases modules.modules@.len() - i,
    {
        let candidate = &modules.modules[i];
        let matches = if stem {
            same_text(self::stem(candidate.name.as_str()), name)
        } else {
            same_text(candidate.name.as_str(), name)
        };
        if matches {
            proof {
                assert(modules@[i as int].module == candidate.module);
            }
            return Some(candidate.module);
        }
        i += 1;
    }
    None
}

/// Where the listing of the modules stands.
#[derive(Clone, Copy, Debug, PartialEq, Eq, Structural)]
pub enum EnumerateStage {
    /// The modules are being listed.
    Listing,
    /// The file name of a module is being asked for.
    Naming,
    /// The place of a module is being asked for.
    Locating,
    /// The listing is over.
    Over,
}

/// The listing of the victim's modules with their names and places.
///
/// The modules are listed, and each is asked for its file name and its
/// place. A module without a name, or with a name that is no UTF-8, is left
/// out.
#[derive(Debug, PartialEq, Eq)]
pub struct Enumerate {
    /// The time that the handle may be waited for, in nanoseconds.
    pub timeout: Option<u64>,
    /// Where the listing stands.
    pub stage: EnumerateStage,
    /// The modules that the victim reported.
    pub handles: Vec<usize>,
    /// The module that is being asked about.
    pub index: usize,
    /// The name of that module, where it has one.
    pub name: Option<String>,
    /// The modules that are done.
    pub found: ModuleList,
}

/// The mathematical value of an `Enumerate`.
pub struct EnumerateModel {
    pub timeout: Option<u64>,
    pub stage: EnumerateStage,
    pub handles: Seq<usize>,
    pub index: usize,
    pub name: Option<Seq<char>>,
    pub found: Seq<NamedModuleModel>,
}

impl View for Enumerate {
    type V = EnumerateModel;

    open spec fn view(&self) -> EnumerateModel {
        EnumerateModel {
            timeout: self.timeout,
            stage: self.stage,
            handles: self.handles@,
            index: self.index,
            name: match self.name {
                Some(name) => Some(name@),
                None => None,
            },
            found: self.found@,
        }
    }
}

impl EnumerateModel {
    /// The listing at another stage.
    pub open spec fn at(&self, stage: EnumerateStage) -> EnumerateModel {
        EnumerateModel { stage, ..*self }
    }

    /// The listing when it is refused an outcome.
    pub open spec fn refused(&self) -> (EnumerateModel, StepModel<Seq<NamedModuleModel>>) {
        (self.at(EnumerateStage::Over), StepModel::Finished(Err(unexpected_reply())))
    }

    /// The modules that are done once the module asked about was placed at
    /// `base` with an image of `size` bytes.
    pub open spec fn with_placed(&self, base: usize, size: usize) -> Seq<NamedModuleModel> {
        match self.name {
            Some(name) => self.found.push(
                NamedModuleModel { name, module: self.handles[self.index as int], base, size },
            ),
            None => self.found,
        }
    }

    /// What the listing does with an outcome: the listing afterwards, and
    /// its answer.
    pub open spec fn next(&self, reply: MemOpResult<Reply>) -> (
        EnumerateModel,
        StepModel<Seq<NamedModuleModel>>,
    ) {
        match (self.stage, reply) {
            (EnumerateStage::Over, _) => (*self, StepModel::Finished(Err(unexpected_reply()))),
            (_, Err(error)) => (self.at(EnumerateStage::Over), StepModel::Finished(Err(error@))),
            (EnumerateStage::Listing, Ok(Reply::Modules(handles))) => if handles@.len() == 0 {
                (
                    EnumerateModel {
                        stage: EnumerateStage::Over,
                        handles: handles@,
                        found: Seq::empty(),
                        ..*self
                    },
                    StepModel::Finished(Ok(self.found)),
                )
            } else {
                (
                    EnumerateModel {
                        stage: EnumerateStage::Naming,
                        handles: handles@,
                        index: 0,
                        ..*self
                    },
                    StepModel::Perform(
                        Op::ModuleName { module: handles@[0], timeout: self.timeout },
                    ),
                )
            },
            (EnumerateStage::Naming, Ok(Reply::Name { raw, length })) => if self.index
                < self.handles.len() {
                (
                    EnumerateModel {
                        stage: EnumerateStage::Locating,
                        name: module_name(raw@, length),
                        ..*self
                    },
                    StepModel::Perform(
                        Op::ModuleInfo {
                            module: self.handles[self.index as int],
                            timeout: self.timeout,
                        },
                    ),
                )
            } else {
                self.refused()
            },
            (EnumerateStage::Locating, Ok(Reply::Image { base, size })) => if self.index
                < self.handles.len() {
                if self.index + 1 < self.handles.len() {
                    (
                        EnumerateModel {
                            stage: EnumerateStage::Naming,
                            index: (self.index + 1) as usize,
                            name: None,
                            found: self.with_placed(base, size),
                            ..*self
                        },
                        StepModel::Perform(
                            Op::ModuleName {
                                module: self.handles[self.index + 1],
                                timeout: self.timeout,
                            },
                        ),
                    )
                } else {
                    (
                        EnumerateModel {
                            stage: EnumerateStage::Over,
                            name: None,
                            found: Seq::empty(),
                            ..*self
                        },
                        StepModel::Finished(Ok(self.with_placed(base, size))),
                    )
                }
            } else {
                self.refused()
            },
            _ => self.refused(),
        }
    }
}

impl Enumerate {
    /// Begins a listing of the victim's modules: hands out the listing and
    /// its first request.
    pub fn start(timeout: Option<u64>) -> (begun: (Enumerate, Op))
        ensures
            begun.0@ == (EnumerateModel {
                timeout,
                stage: EnumerateStage::Listing,
                handles: Seq::empty(),
                index: 0,
                name: None,
                found: Seq::empty(),
            }),
            begun.1 == (Op::EnumModules { timeout }),
    {
        let listing = Enumerate {
            timeout,
            stage: EnumerateStage::Listing,
            handles: Vec::new(),
            index: 0,
            name: None,
            found: ModuleList { modules: Vec::new() },
        };
        proof {
            assert(listing.found@ =~= Seq::empty());
        }
        (listing, Op::EnumModules { timeout })
    }

    fn refuse(&mut self) -> (step: Step<ModuleList>)
        ensures
            (final(self)@, step@) == old(self)@.refused(),
    {
        self.stage = EnumerateStage::Over;
        refuse_reply()
    }

    fn take_found(&mut self) -> (found: ModuleList)
        ensures
            found@ == old(self)@.found,
            final(self)@ == (EnumerateModel { found: Seq::empty(), ..old(self)@ }),
    {
        let mut found = ModuleList { modules: Vec::new() };
        proof {
            assert(found@ =~= Seq::empty());
        }
        core::mem::swap(&mut found, &mut self.found);
        found
    }

    fn place(&mut self, base: usize, size: usize)
        requires
            old(self).index < old(self).handles@.len(),
        ensures
            final(self)@ == (EnumerateModel {
                name: None,
                found: old(self)@.with_placed(base, size),
                ..old(self)@
            }),
    {
        let mut name: Option<String> = None;
        core::mem::swap(&mut name, &mut self.name);
        if let Some(name) = name {
            let module = self.handles[self.index];
            let ghost before = self.found@;
            self.found.modules.push(NamedModule { name, module, base, size });
            proof {
                assert(self.found@ =~= before.push(
                    NamedModuleModel { name: name@, module, base, size },
                ));
            }
        }
    }

    /// Takes the outcome of the request that was handed out last and
    /// answers with the next request or with the modules.
    pub fn step(&mut self, reply: MemOpResult<Reply>) -> (step: Step<ModuleList>)
        ensures
            (final(self)@, step@) == old(self)@.next(reply),
    {
        match self.stage {
            EnumerateStage::Over => refuse_reply(),
            stage => {
                match reply {
                    Err(error) => {
                        self.stage = EnumerateStage::Over;
                        Step::Finished(Err(error))
                    },
                    Ok(reply) => {
                        match (stage, reply) {
                            (EnumerateStage::Listing, Reply::Modules(handles)) => {
                                if handles.len() == 0 {
                                    self.handles = handles;
                                    self.stage = EnumerateStage::Over;
                                    Step::Finished(Ok(self.take_found()))
                                } else {
                                    let module = handles[0];
                                    self.handles = handles;
                                    self.index = 0;
                                    self.stage = EnumerateStage::Naming;
                                    Step::Perform(
                                        Op::ModuleName { module, timeout: self.timeout },
                                    )
                                }
                            },
                            (EnumerateStage::Naming, Reply::Name { raw, length }) => {
                                if self.index < self.handles.len() {
                                    self.name = decode_module_name(&raw, length);
                                    self.stage = EnumerateStage::Locating;
                                    Step::Perform(
                                        Op::ModuleInfo {
                                            module: self.handles[self.index],
                                            timeout: self.timeout,
                                        },
                                    )
                                } else {
                                    self.refuse()
                                }
                            },
                            (EnumerateStage::Locating, Reply::Image { base, size }) => {
                                if self.index < self.handles.len() {
                                    self.place(base, size);
                                    if self.index + 1 < self.handles.len() {
                                        self.index = self.index + 1;
                                        self.stage = EnumerateStage::Naming;
                                        Step::Perform(
                                            Op::ModuleName {
                                                module: self.handles[self.index],
                                                timeout: self.timeout,
                                            },
                                        )
                                    } else {
                                        self.stage = EnumerateStage::Over;
                                        Step::Finished(Ok(self.take_found()))
                                    }
                                } else {
                                    self.refuse()
                                }
                            },
                            _ => self.refuse(),
                        }
                    },
                }
            },
        }
    }
}

/// The context that a failed lookup of the module `name` carries.
pub open spec fn lookup_context(name: Seq<char>) -> Seq<char> {
    "Obtaining module with name \""@ + name + "\" failed"@
}

/// Answers a `FindModule` request from the outcome of a listing: the module
/// that bears the name, where one does, and the failure of the listing, in
/// the context of the lookup, where it failed.
pub fn lookup_reply(listing: MemOpResult<ModuleList>, name: &str, stem: bool) -> (reply:
    MemOpResult<Reply>)
    ensures
        match listing {
            Ok(modules) => reply matches Ok(Reply::Module(found)) && match found {
                Some(module) => exists|k: int|
                    0 <= k < modules@.len() && (#[trigger] modules@[k]).module == module
                        && compared_name(modules@[k].name, stem) == name@ && forall|j: int|
                        0 <= j < k ==> compared_name((#[trigger] modules@[j]).name, stem)
                            != name@,
                None => forall|k: int|
                    0 <= k < modules@.len() ==> compared_name(
                        (#[trigger] modules@[k]).name,
                        stem,
                    ) != name@,
            },
            Err(error) => reply is Err && reply->Err_0@ == error@.with_context(
                lookup_context(name@),
            ),
        },
{
    match listing {
        Ok(modules) => Ok(Reply::Module(module_by_name(&modules, name, stem))),
        Err(error) => {
            let mut context = "Obtaining module with name \"".to_owned();
            context.append(name);
            context.append("\" failed");
            Err(error.add_context(context.as_str()))
        },
    }
}

} // verus!
