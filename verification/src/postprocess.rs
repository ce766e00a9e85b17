//! Post-processing of a compiled module: the ceiling on its imported memory
//! and the removal of the sections that carry no part of the program.

use vstd::prelude::*;
use parity_wasm::elements::Module;
use crate::error::BuildError;
use crate::memory::{capped_limits, cap_memory_limits, MemoryLimits, MAX_MEMORY_PAGES};
use crate::module::{
    decode_module, decoded_module, encode_module, import_kinds, import_kinds_of,
    is_binary_module, module_bytes,
    module_imports, module_sections, remove_section, same_but_imports, section_kinds,
    section_kinds_of, set_memory_import, ImportBinding, ImportKind, ImportView, SectionKind,
    SectionView,
};

verus! {

/// `i` is the place of the first memory among the import entries.
pub open spec fn is_first_memory(imports: Seq<ImportView>, i: int) -> bool {
    &&& 0 <= i < imports.len()
    &&& imports[i].binding is Memory
    &&& forall|j: int| 0 <= j < i ==> !((#[trigger] imports[j]).binding is Memory)
}

/// The import entries hold a memory.
pub open spec fn imports_memory(imports: Seq<ImportView>) -> bool {
    exists|i: int| 0 <= i < imports.len() && (#[trigger] imports[i]).binding is Memory
}

/// The place of the first memory among the import entries.
pub open spec fn first_memory_index(imports: Seq<ImportView>) -> int {
    choose|i: int| is_first_memory(imports, i)
}

/// The limits of the first imported memory, if a memory is imported.
pub open spec fn first_memory_limits(imports: Seq<ImportView>) -> Option<MemoryLimits> {
    if imports_memory(imports) {
        Some(imports[first_memory_index(imports)].binding->Memory_0)
    } else {
        None
    }
}

/// The import entries with the limits `limits` for the first memory among
/// them: the entry keeps its module and its name, and every other entry
/// stays as it is.
pub open spec fn with_memory_limits(imports: Seq<ImportView>, limits: MemoryLimits) -> Seq<
    ImportView,
> {
    let at = first_memory_index(imports);
    imports.update(
        at,
        ImportView {
            module: imports[at].module,
            field: imports[at].field,
            binding: ImportBinding::Memory(limits),
        },
    )
}

/// Two places that are both the first memory are one place.
pub proof fn lemma_first_memory_unique(imports: Seq<ImportView>, i: int, j: int)
    requires
        is_first_memory(imports, i),
        is_first_memory(imports, j),
    ensures
        i == j,
{
    if i < j {
        assert(!(imports[i].binding is Memory));
    } else if j < i {
        assert(!(imports[j].binding is Memory));
    }
}

/// Where one of the first `upto` import entries is a memory, one of them is
/// the first memory.
pub proof fn lemma_memory_has_first(imports: Seq<ImportView>, upto: int)
    requires
        0 <= upto <= imports.len(),
        exists|i: int| 0 <= i < upto && (#[trigger] imports[i]).binding is Memory,
    ensures
        is_first_memory(imports, first_memory_index(imports)),
    decreases upto,
{
    if exists|i: int| 0 <= i < upto - 1 && (#[trigger] imports[i]).binding is Memory {
        lemma_memory_has_first(imports, upto - 1);
    } else {
        assert(is_first_memory(imports, upto - 1));
    }
}

/// Where `i` is the first memory, it is the one that the spec functions
/// above speak of.
pub proof fn lemma_first_memory_found(imports: Seq<ImportView>, i: int)
    requires
        is_first_memory(imports, i),
    ensures
        imports_memory(imports),
        first_memory_index(imports) == i,
        first_memory_limits(imports) == Some(imports[i].binding->Memory_0),
{
    lemma_first_memory_unique(imports, i, first_memory_index(imports));
}

/// Looks for the first memory among the import entries of `module`.
pub fn find_memory_import(module: &Module) -> (res: Option<(usize, MemoryLimits)>)
    ensures
        match res {
            Some((index, limits)) => {
                &&& is_first_memory(module_imports(*module), index as int)
                &&& module_imports(*module)[index as int].binding == ImportBinding::Memory(limits)
            },
            None => !imports_memory(module_imports(*module)),
        },
        first_memory_limits(module_imports(*module)) == match res {
            Some((_, limits)) => Some(limits),
            None => None,
        },
{
    let kinds = import_kinds(module);
    let ghost imports = module_imports(*module);
    let mut i: usize = 0;
    while i < kinds.len()
        invariant
            i <= kinds.len(),
            imports == module_imports(*module),
            kinds@ == import_kinds_of(imports),
            forall|j: int| 0 <= j < i ==> !((#[trigger] imports[j]).binding is Memory),
        decreases kinds.len() - i,
    {
        assert(kinds@[i as int] == imports[i as int].binding.kind());
        if let ImportKind::Memory(limits) = kinds[i] {
            proof {
                lemma_first_memory_found(imports, i as int);
            }
            return Some((i, limits));
        }
        i += 1;
    }
    assert forall|j: int| 0 <= j < imports.len() implies !((#[trigger] imports[j]).binding
        is Memory) by {
        assert(kinds@[j] == imports[j].binding.kind());
    }
    None
}

/// Holds the first imported memory of `module` to at most
/// `maximum_allowed_pages` pages.
///
/// A module without an imported memory is refused, and so is one whose memory
/// declares a maximum above the allowed number; both leave the module as it
/// was. A memory without a maximum gets the allowed number as its maximum and
/// keeps its initial page count; one with a maximum within the allowed number
/// is not touched, nor is anything else of its module. Where the maximum is
/// set, the import entry keeps its module and its name, every other import
/// entry stays as it is, and so does every section but the import section.
pub fn ensure_maximum_memory_pages(module: &mut Module, maximum_allowed_pages: u32) -> (res:
    Result<(), BuildError>)
    ensures
        match capped_limits(
            first_memory_limits(module_imports(*old(module))),
            maximum_allowed_pages,
        ) {
            Ok(limits) => {
                &&& res == Ok::<(), BuildError>(())
                &&& module_imports(*final(module)) == with_memory_limits(
                    module_imports(*old(module)),
                    limits,
                )
                &&& same_but_imports(module_sections(*old(module)), module_sections(*final(module)))
                &&& first_memory_limits(module_imports(*final(module))) == Some(limits)
            },
            Err(error) => res == Err::<(), BuildError>(error) && *final(module) == *old(module),
        },
        first_memory_limits(module_imports(*old(module))) matches Some(limits)
            && limits.maximum is Some ==> *final(module) == *old(module),
{
    let found = find_memory_import(module);
    let ghost imports = module_imports(*module);
    match found {
        None => Err(BuildError::MemoryImportNotFound),
        Some((index, limits)) => {
            proof {
                lemma_first_memory_found(imports, index as int);
            }
            match cap_memory_limits(Some(limits), maximum_allowed_pages) {
                Err(error) => Err(error),
                Ok(capped) => {
                    if limits.maximum.is_none() {
                        set_memory_import(module, index, capped);
                    } else {
                        assert(with_memory_limits(imports, capped) =~= imports);
                    }
                    proof {
                        let updated = with_memory_limits(imports, capped);
                        assert(is_first_memory(updated, index as int));
                        lemma_first_memory_found(updated, index as int);
                    }
                    Ok(())
                },
            }
        },
    }
}

/// Whether a section of this kind stays in a post-processed module: custom,
/// name and relocation sections leave.
pub open spec fn keeps_section(kind: SectionKind) -> bool {
    kind != SectionKind::Custom && kind != SectionKind::Name && kind != SectionKind::Reloc
}

/// The sections that stay in a post-processed module: all but the custom,
/// name and relocation sections, each as it is and in the order it had.
pub open spec fn stripped(sections: Seq<SectionView>) -> Seq<SectionView> {
    sections.filter(|section: SectionView| keeps_section(section.kind))
}

/// Custom, name and relocation sections are taken out of `module`; every
/// other section stays as it is and in the order it had, and so do the
/// import entries. A module that holds none of the three stays as it is.
pub fn strip_custom_sections(module: &mut Module)
    ensures
        module_sections(*final(module)) == stripped(module_sections(*old(module))),
        module_imports(*final(module)) == module_imports(*old(module)),
        forall|i: int|
            0 <= i < module_sections(*final(module)).len() ==> keeps_section(
                (#[trigger] module_sections(*final(module))[i]).kind,
            ),
        (forall|i: int|
            0 <= i < module_sections(*old(module)).len() ==> keeps_section(
                (#[trigger] module_sections(*old(module))[i]).kind,
            )) ==> *final(module) == *old(module),
{
    let kinds = section_kinds(module);
    let ghost before = module_sections(*module);
    let ghost keep = |section: SectionView| keeps_section(section.kind);
    let mut next: usize = 0;
    let mut at: usize = 0;
    proof {
        assert(before.take(0).filter(keep) =~= Seq::<SectionView>::empty()) by {
            reveal(Seq::filter);
        }
        assert(before.take(0).filter(keep) + before.skip(0) =~= before);
    }
    while next < kinds.len()
        invariant
            kinds@ == section_kinds_of(before),
            before == module_sections(*old(module)),
            keep == |section: SectionView| keeps_section(section.kind),
            next <= kinds.len(),
            at == before.take(next as int).filter(keep).len(),
            module_sections(*module) == before.take(next as int).filter(keep) + before.skip(
                next as int,
            ),
            module_imports(*module) == module_imports(*old(module)),
            (forall|i: int| 0 <= i < next ==> keeps_section((#[trigger] before[i]).kind))
                ==> *module == *old(module),
        decreases kinds.len() - next,
    {
        let ghost kept = before.take(next as int).filter(keep);
        proof {
            let longer = before.take(next as int + 1);
            assert(longer.drop_last() =~= before.take(next as int));
            assert(longer.last() == before[next as int]);
            reveal(Seq::filter);
            assert(longer.filter(keep) == if keep(before[next as int]) {
                kept.push(before[next as int])
            } else {
                kept
            });
            before.take(next as int).lemma_filter_len(keep);
            assert(kinds@[next as int] == before[next as int].kind);
        }
        match kinds[next] {
            SectionKind::Custom | SectionKind::Name | SectionKind::Reloc => {
                assert((kept + before.skip(next as int))[at as int] == before[next as int]);
                remove_section(module, at);
                assert((kept + before.skip(next as int)).remove(at as int) =~= kept
                    + before.skip(next as int + 1));
            },
            SectionKind::Import | SectionKind::Other => {
                assert(kept.push(before[next as int]) + before.skip(next as int + 1) =~= kept
                    + before.skip(next as int));
                at += 1;
            },
        }
        next += 1;
    }
    proof {
        assert(before.take(next as int) =~= before);
        assert(before.filter(keep) + before.skip(next as int) =~= before.filter(keep));
        #[allow(deprecated)]
        before.filter_lemma(keep);
    }
}

/// The exports from which dead-code elimination starts: what they do not
/// reach leaves the module.
pub fn entry_points() -> (names: Vec<&'static str>)
    ensures
        names@.len() == 2,
        names@[0]@ == "call"@,
        names@[1]@ == "deploy"@,
{
    let mut names: Vec<&'static str> = Vec::new();
    names.push("call");
    names.push("deploy");
    names
}

/// Reads a compiled artifact as a module: the module holds the import
/// entries and the sections that the bytes spell. Bytes that are not the
/// binary form of a module are refused.
pub fn load_module(bytes: &[u8]) -> (res: Result<Module, BuildError>)
    ensures
        res is Ok == is_binary_module(bytes@),
        match (res, decoded_module(bytes@)) {
            (Ok(module), Some(read)) => module_imports(module) == read.imports
                && module_sections(module) == read.sections,
            (Err(error), None) => error == BuildError::MalformedModule,
            _ => false,
        },
{
    match decode_module(bytes) {
        Some(module) => Ok(module),
        None => Err(BuildError::MalformedModule),
    }
}

/// Filtering by kind keeps two lists of sections alike that are alike.
pub proof fn lemma_stripped_alike(before: Seq<SectionView>, after: Seq<SectionView>)
    requires
        same_but_imports(before, after),
    ensures
        same_but_imports(stripped(before), stripped(after)),
    decreases before.len(),
{
    reveal(Seq::filter);
    if before.len() > 0 {
        assert(after.last().kind == before.last().kind);
        assert forall|i: int| 0 <= i < before.drop_last().len() implies (#[trigger] after.drop_last()[i]).kind
            == before.drop_last()[i].kind && (before.drop_last()[i].kind != SectionKind::Import
            ==> after.drop_last()[i] == before.drop_last()[i]) by {
            assert(after.drop_last()[i] == after[i]);
        }
        lemma_stripped_alike(before.drop_last(), after.drop_last());
    }
}

/// What the ceiling makes of the import entries of a module: the entries
/// with the capped limits for the first memory among them, or why the module
/// is refused.
pub open spec fn processed_imports(imports: Seq<ImportView>) -> Result<Seq<ImportView>, BuildError> {
    match capped_limits(first_memory_limits(imports), MAX_MEMORY_PAGES) {
        Ok(limits) => Ok(with_memory_limits(imports, limits)),
        Err(error) => Err(error),
    }
}

/// Holds the imported memory of `module` to the ceiling of
/// [`MAX_MEMORY_PAGES`] and takes out its custom, name and relocation
/// sections. Every other section but the import section stays as it is and
/// in its order; the import section holds the processed entries. A module
/// that is refused stays as it was.
pub fn post_process_module(module: &mut Module) -> (res: Result<(), BuildError>)
    ensures
        match processed_imports(module_imports(*old(module))) {
            Ok(imports) => {
                &&& res == Ok::<(), BuildError>(())
                &&& module_imports(*final(module)) == imports
                &&& same_but_imports(
                    stripped(module_sections(*old(module))),
                    module_sections(*final(module)),
                )
            },
            Err(error) => res == Err::<(), BuildError>(error) && *final(module) == *old(module),
        },
{
    match ensure_maximum_memory_pages(module, MAX_MEMORY_PAGES) {
        Err(error) => Err(error),
        Ok(()) => {
            proof {
                lemma_stripped_alike(module_sections(*old(module)), module_sections(*module));
            }
            strip_custom_sections(module);
            Ok(())
        },
    }
}

/// Performs the post-processing steps that follow dead-code elimination on a
/// module, and gives the bytes of the destination artifact.
///
/// A module that imports no memory, or one whose memory asks for more than the
/// ceiling, is refused with that error. Any other module is processed, and
/// the bytes are those of the processed module: a module with the processed
/// import entries and with the sections that stay. It then fails only where
/// the processed module cannot be written as bytes.
pub fn post_process_wasm_compose(module: Module) -> (res: Result<Vec<u8>, BuildError>)
    ensures
        match processed_imports(module_imports(module)) {
            Ok(imports) => exists|processed: Module|
                {
                    &&& module_imports(processed) == imports
                    &&& same_but_imports(
                        stripped(module_sections(module)),
                        module_sections(processed),
                    )
                    &&& match (res, #[trigger] module_bytes(processed)) {
                        (Ok(bytes), Some(expected)) => bytes@ == expected,
                        (Err(error), None) => error == BuildError::ModuleNotSerializable,
                        _ => false,
                    }
                },
            Err(error) => res == Err::<Vec<u8>, BuildError>(error),
        },
{
    let mut module = module;
    match post_process_module(&mut module) {
        Err(error) => Err(error),
        Ok(()) => {
            let ghost processed = module;
            let res = match encode_module(module) {
                Some(bytes) => Ok(bytes),
                None => Err(BuildError::ModuleNotSerializable),
            };
            assert(module_bytes(processed) is Some <==> res is Ok);
            res
        },
    }
}

/// A module whose imported memory declares no maximum is processed: its
/// memory then has the ceiling as its maximum and the initial page count it
/// had, under the module and the name it had, and every other import entry
/// is as it was.
pub proof fn lemma_unbounded_memory_gets_ceiling(imports: Seq<ImportView>)
    requires
        first_memory_limits(imports) matches Some(limits) && limits.maximum is None,
    ensures
        ({
            let at = first_memory_index(imports);
            let capped = MemoryLimits {
                initial: first_memory_limits(imports)->Some_0.initial,
                maximum: Some(MAX_MEMORY_PAGES),
            };
            &&& processed_imports(imports) matches Ok(after)
            &&& first_memory_limits(after) == Some(capped)
            &&& after.len() == imports.len()
            &&& after[at].module == imports[at].module
            &&& after[at].field == imports[at].field
            &&& after[at].binding == ImportBinding::Memory(capped)
            &&& forall|j: int| 0 <= j < imports.len() && j != at ==> #[trigger] after[j] == imports[j]
        }),
{
    let at = first_memory_index(imports);
    let limits = first_memory_limits(imports)->Some_0;
    let capped = MemoryLimits { initial: limits.initial, maximum: Some(MAX_MEMORY_PAGES) };
    let after = with_memory_limits(imports, capped);
    lemma_memory_has_first(imports, imports.len() as int);
    assert(is_first_memory(after, at));
    lemma_first_memory_found(after, at);
}

/// A module whose imported memory declares a maximum within the ceiling is
/// processed, and its import entries stay as they are.
pub proof fn lemma_bounded_memory_is_kept(imports: Seq<ImportView>)
    requires
        first_memory_limits(imports) matches Some(limits) && limits.maximum matches Some(maximum)
            && maximum <= MAX_MEMORY_PAGES,
    ensures
        processed_imports(imports) == Ok::<Seq<ImportView>, BuildError>(imports),
{
    let at = first_memory_index(imports);
    lemma_memory_has_first(imports, imports.len() as int);
    assert(with_memory_limits(imports, first_memory_limits(imports)->Some_0) =~= imports);
}

/// A module whose imported memory declares a maximum above the ceiling is
/// refused, with both numbers.
pub proof fn lemma_oversized_memory_is_refused(imports: Seq<ImportView>)
    requires
        first_memory_limits(imports) matches Some(limits) && limits.maximum matches Some(maximum)
            && maximum > MAX_MEMORY_PAGES,
    ensures
        processed_imports(imports) == Err::<Seq<ImportView>, BuildError>(
            BuildError::MemoryCeilingExceeded {
                requested: first_memory_limits(imports)->Some_0.maximum->Some_0,
                allowed: MAX_MEMORY_PAGES,
            },
        ),
{
}

/// A module that imports no memory is refused.
pub proof fn lemma_missing_memory_is_refused(imports: Seq<ImportView>)
    requires
        forall|i: int| 0 <= i < imports.len() ==> !((#[trigger] imports[i]).binding is Memory),
    ensures
        processed_imports(imports) == Err::<Seq<ImportView>, BuildError>(
            BuildError::MemoryImportNotFound,
        ),
{
}

/// The sections that stay hold no custom, name or relocation section,
/// whether or not the module came with one. Where the module came with none,
/// all its sections stay; and stripping what was stripped changes nothing.
pub proof fn lemma_metadata_sections_leave(sections: Seq<SectionView>)
    ensures
        forall|i: int|
            0 <= i < stripped(sections).len() ==> keeps_section(
                (#[trigger] stripped(sections)[i]).kind,
            ),
        stripped(sections).len() <= sections.len(),
        (forall|i: int| 0 <= i < sections.len() ==> keeps_section((#[trigger] sections[i]).kind))
            ==> stripped(sections) == sections,
        stripped(stripped(sections)) == stripped(sections),
{
    let keep = |section: SectionView| keeps_section(section.kind);
    #[allow(deprecated)]
    sections.filter_lemma(keep);
    if forall|i: int| 0 <= i < sections.len() ==> keeps_section((#[trigger] sections[i]).kind) {
        lemma_filter_keeps_all(sections);
    }
    lemma_filter_keeps_all(stripped(sections));
}

/// A processed module holds no custom, name or relocation section, whether
/// or not it came with one, and each of its sections but the import section
/// is a section that it came with.
pub proof fn lemma_processed_holds_no_metadata(before: Seq<SectionView>, after: Seq<SectionView>)
    requires
        same_but_imports(stripped(before), after),
    ensures
        forall|i: int| 0 <= i < after.len() ==> keeps_section((#[trigger] after[i]).kind),
        forall|i: int|
            0 <= i < after.len() && (#[trigger] after[i]).kind != SectionKind::Import
                ==> before.contains(after[i]),
{
    lemma_metadata_sections_leave(before);
    let keep = |section: SectionView| keeps_section(section.kind);
    assert forall|i: int| 0 <= i < after.len() implies keeps_section((#[trigger] after[i]).kind) by {
        assert(keeps_section(stripped(before)[i].kind));
    }
    assert forall|i: int|
        0 <= i < after.len() && (#[trigger] after[i]).kind != SectionKind::Import implies before.contains(
        after[i],
    ) by {
        assert(after[i] == stripped(before)[i]);
        assert(before.filter(keep).contains(stripped(before)[i]));
        before.lemma_filter_contains_rev(keep, stripped(before)[i]);
    }
}

/// Every section that stays came with the module, and the sections that stay
/// stand in the order in which they came: each kept section of the module
/// is found among them, behind those that stood before it.
pub proof fn lemma_kept_sections_stay(sections: Seq<SectionView>, i: int)
    requires
        0 <= i < sections.len(),
        keeps_section(sections[i].kind),
    ensures
        ({
            let at = stripped(sections.take(i)).len() as int;
            &&& at < stripped(sections).len()
            &&& stripped(sections)[at] == sections[i]
        }),
{
    let keep = |section: SectionView| keeps_section(section.kind);
    assert(sections =~= sections.take(i) + seq![sections[i]] + sections.skip(i + 1));
    Seq::filter_distributes_over_add(sections.take(i) + seq![sections[i]], sections.skip(i + 1), keep);
    Seq::filter_distributes_over_add(sections.take(i), seq![sections[i]], keep);
    assert(seq![sections[i]].filter(keep) =~= seq![sections[i]]) by {
        reveal(Seq::filter);
        assert(seq![sections[i]].drop_last() =~= Seq::<SectionView>::empty());
        assert(Seq::<SectionView>::empty().filter(keep) =~= Seq::<SectionView>::empty());
    }
}

/// Where every section stays, filtering changes nothing.
proof fn lemma_filter_keeps_all(sections: Seq<SectionView>)
    requires
        forall|i: int| 0 <= i < sections.len() ==> keeps_section((#[trigger] sections[i]).kind),
    ensures
        stripped(sections) == sections,
    decreases sections.len(),
{
    reveal(Seq::filter);
    if sections.len() > 0 {
        lemma_filter_keeps_all(sections.drop_last());
        assert(sections.drop_last().push(sections.last()) =~= sections);
    }
}

} // verus!
