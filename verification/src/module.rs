//! A compiled binary module, as far as post-processing looks into it: the
//! entries of its import section, and its sections.

use vstd::prelude::*;
use parity_wasm::elements::{External, MemoryType, Module, Section};
use crate::memory::MemoryLimits;

verus! {

/// The in-memory form of a binary module. Its contents are reached through
/// the functions of this file only.
#[verifier::external_type_specification]
#[verifier::external_body]
pub struct ExModule(Module);

/// What one entry of the import section binds, as far as post-processing
/// tells the entries apart.
#[derive(Clone, Copy, Debug, PartialEq, Eq, Structural)]
pub enum ImportKind {
    Function,
    Table,
    Memory(MemoryLimits),
    Global,
}

/// What one entry of the import section binds, in full: a memory with its
/// limits, and a function, a table or a global with the bytes that
/// `parity_wasm` writes for its type.
pub enum ImportBinding {
    Function(Seq<u8>),
    Table(Seq<u8>),
    Memory(MemoryLimits),
    Global(Seq<u8>),
}

impl ImportBinding {
    /// The kind of the binding.
    pub open spec fn kind(self) -> ImportKind {
        match self {
            ImportBinding::Function(_) => ImportKind::Function,
            ImportBinding::Table(_) => ImportKind::Table,
            ImportBinding::Memory(limits) => ImportKind::Memory(limits),
            ImportBinding::Global(_) => ImportKind::Global,
        }
    }
}

/// One entry of the import section: the module that the import is taken
/// from, its name in that module, and what it binds.
pub struct ImportView {
    pub module: Seq<char>,
    pub field: Seq<char>,
    pub binding: ImportBinding,
}

/// The kinds of section that post-processing tells apart.
#[derive(Clone, Copy, Debug, PartialEq, Eq, Structural)]
pub enum SectionKind {
    /// A custom section.
    Custom,
    /// The name section.
    Name,
    /// A relocation section.
    Reloc,
    /// An import section.
    Import,
    /// Any other section that carries part of the program.
    Other,
}

/// One section of a module: its kind, and what it holds, as the bytes that
/// `parity_wasm` writes for it; `None` where it cannot write the section.
pub struct SectionView {
    pub kind: SectionKind,
    pub bytes: Option<Seq<u8>>,
}

/// The entries of the first import section of `module`, in order; empty where
/// the module has no import section.
pub uninterp spec fn module_imports(module: Module) -> Seq<ImportView>;

/// The sections of `module`, in order.
pub uninterp spec fn module_sections(module: Module) -> Seq<SectionView>;

/// The kind of each import entry.
pub open spec fn import_kinds_of(imports: Seq<ImportView>) -> Seq<ImportKind> {
    imports.map_values(|entry: ImportView| entry.binding.kind())
}

/// The kind of each section.
pub open spec fn section_kinds_of(sections: Seq<SectionView>) -> Seq<SectionKind> {
    sections.map_values(|section: SectionView| section.kind)
}

/// The two lists of sections are of one length and of the same kinds, and
/// all but the import sections are the same in both.
pub open spec fn same_but_imports(before: Seq<SectionView>, after: Seq<SectionView>) -> bool {
    &&& before.len() == after.len()
    &&& forall|i: int|
        0 <= i < before.len() ==> (#[trigger] after[i]).kind == before[i].kind && (before[i].kind
            != SectionKind::Import ==> after[i] == before[i])
}

/// What a module holds, as far as post-processing looks into it.
pub struct ModuleView {
    pub imports: Seq<ImportView>,
    pub sections: Seq<SectionView>,
}

/// What the module holds that `parity_wasm` reads from `bytes`; `None` where
/// the bytes are not the binary form of a module.
pub uninterp spec fn decoded_module(bytes: Seq<u8>) -> Option<ModuleView>;

/// Whether `bytes` are the binary form of a module, as `parity_wasm` reads it.
pub open spec fn is_binary_module(bytes: Seq<u8>) -> bool {
    decoded_module(bytes) is Some
}

/// `parity_wasm::deserialize_buffer`: reads a module from its binary form, or
/// gives `None` where the bytes are not one. What the module holds is
/// decided by the bytes.
#[verifier::external_body]
pub(crate) fn decode_module(bytes: &[u8]) -> (res: Option<Module>)
    ensures
        match (res, decoded_module(bytes@)) {
            (Some(module), Some(read)) => module_imports(module) == read.imports
                && module_sections(module) == read.sections,
            (None, None) => true,
            _ => false,
        },
{
    parity_wasm::deserialize_buffer::<Module>(bytes).ok()
}

/// The bytes of the binary form of `module`, as `parity_wasm` writes it;
/// `None` where it cannot write one of the sections.
pub uninterp spec fn module_bytes(module: Module) -> Option<Seq<u8>>;

/// `parity_wasm::serialize`: writes a module in its binary form, or gives
/// `None` where a section cannot be written.
#[verifier::external_body]
pub(crate) fn encode_module(module: Module) -> (res: Option<Vec<u8>>)
    ensures
        match (res, module_bytes(module)) {
            (Some(bytes), Some(expected)) => bytes@ == expected,
            (None, None) => true,
            _ => false,
        },
{
    parity_wasm::serialize(module).ok()
}

/// `Module::import_section` and `ImportSection::entries`: lists the kind of
/// what each entry of the first import section binds, a memory with its
/// limits.
#[verifier::external_body]
pub(crate) fn import_kinds(module: &Module) -> (kinds: Vec<ImportKind>)
    ensures
        kinds@ == import_kinds_of(module_imports(*module)),
{
    let mut kinds = Vec::new();
    if let Some(section) = module.import_section() {
        for entry in section.entries() {
            kinds.push(match entry.external() {
                External::Function(_) => ImportKind::Function,
                External::Table(_) => ImportKind::Table,
                External::Memory(memory) => ImportKind::Memory(MemoryLimits {
                    initial: memory.limits().initial(),
                    maximum: memory.limits().maximum(),
                }),
                External::Global(_) => ImportKind::Global,
            });
        }
    }
    kinds
}

/// `ImportEntry::external_mut` with `MemoryType::new`: replaces the memory that
/// the import entry at `index` binds by one with the given limits. The entry
/// keeps its module and its name, the other entries stay as they are, and so
/// does every section but the import sections.
#[verifier::external_body]
pub(crate) fn set_memory_import(module: &mut Module, index: usize, limits: MemoryLimits)
    requires
        index < module_imports(*old(module)).len(),
        module_imports(*old(module))[index as int].binding is Memory,
    ensures
        module_imports(*final(module)) == module_imports(*old(module)).update(
            index as int,
            (ImportView {
                module: module_imports(*old(module))[index as int].module,
                field: module_imports(*old(module))[index as int].field,
                binding: ImportBinding::Memory(limits),
            }),
        ),
        same_but_imports(module_sections(*old(module)), module_sections(*final(module))),
{
    if let Some(section) = module.import_section_mut() {
        if let External::Memory(memory) = section.entries_mut()[index].external_mut() {
            *memory = MemoryType::new(limits.initial, limits.maximum);
        }
    }
}

/// `Module::sections`: lists the kind of each section.
#[verifier::external_body]
pub(crate) fn section_kinds(module: &Module) -> (kinds: Vec<SectionKind>)
    ensures
        kinds@ == section_kinds_of(module_sections(*module)),
{
    let mut kinds = Vec::new();
    for section in module.sections() {
        kinds.push(match section {
            Section::Custom(_) => SectionKind::Custom,
            Section::Name(_) => SectionKind::Name,
            Section::Reloc(_) => SectionKind::Reloc,
            Section::Import(_) => SectionKind::Import,
            _ => SectionKind::Other,
        });
    }
    kinds
}

/// `Module::sections_mut` with `Vec::remove`: takes the section at `index` out
/// of the module. The sections around it stay as they are and keep their
/// order, and as the section is no import section, the import entries stay.
#[verifier::external_body]
pub(crate) fn remove_section(module: &mut Module, index: usize)
    requires
        index < module_sections(*old(module)).len(),
        module_sections(*old(module))[index as int].kind != SectionKind::Import,
    ensures
        module_sections(*final(module)) == module_sections(*old(module)).remove(index as int),
        module_imports(*final(module)) == module_imports(*old(module)),
{
    module.sections_mut().remove(index);
}

} // verus!
