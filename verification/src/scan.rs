use vstd::prelude::*;
use crate::classify::{classify_instruction, kind_eq, spec_known_kind, RaydiumInstructionType};
use crate::tx::{ParsedInnerInstruction, ParsedInstruction, ParsedTransaction};

verus! {

/// Where a classified instruction stands in its transaction.
#[derive(Clone, Copy, Debug, PartialEq, Eq, Structural)]
pub enum InstructionSite {
    /// The instruction at `index` of the top-level list.
    TopLevel { index: usize },
    /// The instruction at `index` inside the group at position `group` of the
    /// inner-instruction list; the owning top-level index is that group's tag.
    Inner { group: usize, index: usize },
}

/// A reported classification hit: the instruction's kind and where it stands.
#[derive(Clone, Copy, Debug, PartialEq, Eq)]
pub struct ClassifiedInstruction {
    pub kind: RaydiumInstructionType,
    pub site: InstructionSite,
}

/// The sites of a hit list.
pub open spec fn spec_sites_view(v: Seq<ClassifiedInstruction>) -> Seq<InstructionSite> {
    v.map_values(|c: ClassifiedInstruction| c.site)
}

/// Whether classifying `data` yields exactly the kind `k`.
pub open spec fn spec_is_kind_of(data: Seq<u8>, k: RaydiumInstructionType) -> bool {
    match k {
        RaydiumInstructionType::Unknown(d) => (data.len() < 8 && d@ == Seq::new(8, |i: int| 0u8))
            || (data.len() >= 8 && spec_known_kind(data.take(8)) is None && d@ == data.take(8)),
        _ => data.len() >= 8 && spec_known_kind(data.take(8)) == Some(k),
    }
}

/// Classification is a function of the data: at most one kind matches.
pub proof fn lemma_kind_of_functional(
    data: Seq<u8>,
    k1: RaydiumInstructionType,
    k2: RaydiumInstructionType,
)
    requires
        spec_is_kind_of(data, k1),
        spec_is_kind_of(data, k2),
    ensures
        k1 == k2,
{
    match (k1, k2) {
        (RaydiumInstructionType::Unknown(d1), RaydiumInstructionType::Unknown(d2)) => {
            assert(d1@ == d2@);
            assert(forall|i: int| 0 <= i < 8 ==> d1[i] == d2[i]);
            assert(d1 =~= d2);
        },
        _ => {},
    }
}

/// Whether the kinds filter selects data of this classification: an empty
/// filter selects everything, otherwise some listed kind must match.
pub open spec fn spec_kind_selected(data: Seq<u8>, kinds: Seq<RaydiumInstructionType>) -> bool {
    kinds.len() == 0 || exists|j: int|
        0 <= j < kinds.len() && spec_is_kind_of(data, #[trigger] kinds[j])
}

/// Whether an instruction is reported: its resolved program id is the target
/// program, and its kind passes the filter.
pub open spec fn spec_instr_hit(
    instr: ParsedInstruction,
    target: Seq<char>,
    kinds: Seq<RaydiumInstructionType>,
) -> bool {
    instr.program_id@ == target && spec_kind_selected(instr.data@, kinds)
}

/// Sites of the reported instructions among the first `n` top-level ones.
pub open spec fn spec_top_sites(
    instrs: Seq<ParsedInstruction>,
    target: Seq<char>,
    kinds: Seq<RaydiumInstructionType>,
    n: int,
) -> Seq<InstructionSite>
    decreases n,
{
    if n <= 0 {
        Seq::empty()
    } else {
        let prev = spec_top_sites(instrs, target, kinds, n - 1);
        if spec_instr_hit(instrs[n - 1], target, kinds) {
            prev.push(InstructionSite::TopLevel { index: (n - 1) as usize })
        } else {
            prev
        }
    }
}

/// Sites of the reported instructions among the first `n` of the inner group
/// at position `g`.
pub open spec fn spec_group_sites(
    instrs: Seq<ParsedInstruction>,
    target: Seq<char>,
    kinds: Seq<RaydiumInstructionType>,
    g: int,
    n: int,
) -> Seq<InstructionSite>
    decreases n,
{
    if n <= 0 {
        Seq::empty()
    } else {
        let prev = spec_group_sites(instrs, target, kinds, g, n - 1);
        if spec_instr_hit(instrs[n - 1], target, kinds) {
            prev.push(InstructionSite::Inner { group: g as usize, index: (n - 1) as usize })
        } else {
            prev
        }
    }
}

/// Sites of the reported instructions over the first `gn` inner groups.
pub open spec fn spec_inner_sites(
    groups: Seq<ParsedInnerInstruction>,
    target: Seq<char>,
    kinds: Seq<RaydiumInstructionType>,
    gn: int,
) -> Seq<InstructionSite>
    decreases gn,
{
    if gn <= 0 {
        Seq::empty()
    } else {
        spec_inner_sites(groups, target, kinds, gn - 1) + spec_group_sites(
            groups[gn - 1].instructions@,
            target,
            kinds,
            gn - 1,
            groups[gn - 1].instructions@.len() as int,
        )
    }
}

/// All reported sites of a transaction, in scan order: the top-level list
/// first, then each inner group.
pub open spec fn spec_scan_sites(
    tx: ParsedTransaction,
    target: Seq<char>,
    kinds: Seq<RaydiumInstructionType>,
) -> Seq<InstructionSite> {
    spec_top_sites(tx.instructions@, target, kinds, tx.instructions@.len() as int)
        + spec_inner_sites(
        tx.inner_instructions@,
        target,
        kinds,
        tx.inner_instructions@.len() as int,
    )
}

/// The instruction standing at a site.
pub open spec fn spec_instr_at(tx: ParsedTransaction, site: InstructionSite) -> ParsedInstruction {
    match site {
        InstructionSite::TopLevel { index } => tx.instructions@[index as int],
        InstructionSite::Inner { group, index } => tx.inner_instructions@[group as int]
            .instructions@[index as int],
    }
}

/// Classifies one instruction's data and decides whether the kinds filter
/// selects it.
fn classify_and_select(data: &Vec<u8>, kinds: &Vec<RaydiumInstructionType>) -> (r: (
    RaydiumInstructionType,
    bool,
))
    ensures
        spec_is_kind_of(data@, r.0),
        r.1 == spec_kind_selected(data@, kinds@),
{
    let k = classify_instruction(data.as_slice());
    proof {
        assert(spec_is_kind_of(data@, k));
    }
    if kinds.len() == 0 {
        return (k, true);
    }
    let mut j: usize = 0;
    while j < kinds.len()
        invariant
            spec_is_kind_of(data@, k),
            j <= kinds@.len(),
            forall|t: int| 0 <= t < j ==> #[trigger] kinds@[t] != k,
        decreases kinds@.len() - j,
    {
        if kind_eq(&kinds[j], &k) {
            return (k, true);
        }
        j = j + 1;
    }
    proof {
        assert forall|t: int| 0 <= t < kinds@.len() implies !spec_is_kind_of(
            data@,
            #[trigger] kinds@[t],
        ) by {
            if spec_is_kind_of(data@, kinds@[t]) {
                lemma_kind_of_functional(data@, kinds@[t], k);
            }
        }
    }
    (k, false)
}

/// Scans the top-level and inner instruction lists for instructions whose
/// resolved program id equals the target program, classifies each, and reports
/// (kind, position) for those the kinds filter selects; an empty filter
/// selects every kind.
pub fn find_target_instructions(
    tx: &ParsedTransaction,
    target_program: &String,
    target_kinds: &Vec<RaydiumInstructionType>,
) -> (hits: Vec<ClassifiedInstruction>)
    ensures
        spec_sites_view(hits@) == spec_scan_sites(
            *tx,
            target_program@,
            target_kinds@,
        ),
        forall|i: int|
            #![auto]
            0 <= i < hits@.len() ==> spec_is_kind_of(
                spec_instr_at(*tx, hits@[i].site).data@,
                hits@[i].kind,
            ),
{
    let ghost target = target_program@;
    let ghost kinds = target_kinds@;
    let mut hits: Vec<ClassifiedInstruction> = Vec::new();
    let mut i: usize = 0;
    while i < tx.instructions.len()
        invariant
            i <= tx.instructions@.len(),
            spec_sites_view(hits@) =~= spec_top_sites(
                tx.instructions@,
                target,
                kinds,
                i as int,
            ),
            target == target_program@,
            kinds == target_kinds@,
            forall|t: int|
                #![auto]
                0 <= t < hits@.len() ==> spec_is_kind_of(
                    spec_instr_at(*tx, hits@[t].site).data@,
                    hits@[t].kind,
                ),
        decreases tx.instructions@.len() - i,
    {
        let instr = &tx.instructions[i];
        let pid_match = instr.program_id == *target_program;
        let (k, sel) = classify_and_select(&instr.data, target_kinds);
        if pid_match && sel {
            hits.push(ClassifiedInstruction { kind: k, site: InstructionSite::TopLevel { index: i } });
        }
        proof {
            assert(spec_sites_view(hits@) =~= spec_top_sites(
                tx.instructions@,
                target,
                kinds,
                i + 1,
            ));
        }
        i = i + 1;
    }
    let ghost top = spec_top_sites(tx.instructions@, target, kinds, tx.instructions@.len() as int);
    let mut g: usize = 0;
    while g < tx.inner_instructions.len()
        invariant
            g <= tx.inner_instructions@.len(),
            spec_sites_view(hits@) =~= top + spec_inner_sites(
                tx.inner_instructions@,
                target,
                kinds,
                g as int,
            ),
            top == spec_top_sites(tx.instructions@, target, kinds, tx.instructions@.len() as int),
            target == target_program@,
            kinds == target_kinds@,
            forall|t: int|
                #![auto]
                0 <= t < hits@.len() ==> spec_is_kind_of(
                    spec_instr_at(*tx, hits@[t].site).data@,
                    hits@[t].kind,
                ),
        decreases tx.inner_instructions@.len() - g,
    {
        let group = &tx.inner_instructions[g];
        let mut j: usize = 0;
        while j < group.instructions.len()
            invariant
                g < tx.inner_instructions@.len(),
                group == &tx.inner_instructions[g as int],
                j <= group.instructions@.len(),
                spec_sites_view(hits@) =~= top + spec_inner_sites(
                    tx.inner_instructions@,
                    target,
                    kinds,
                    g as int,
                ) + spec_group_sites(
                    group.instructions@,
                    target,
                    kinds,
                    g as int,
                    j as int,
                ),
                top == spec_top_sites(
                    tx.instructions@,
                    target,
                    kinds,
                    tx.instructions@.len() as int,
                ),
                target == target_program@,
                kinds == target_kinds@,
                forall|t: int|
                    #![auto]
                    0 <= t < hits@.len() ==> spec_is_kind_of(
                        spec_instr_at(*tx, hits@[t].site).data@,
                        hits@[t].kind,
                    ),
            decreases group.instructions@.len() - j,
        {
            let instr = &group.instructions[j];
            let pid_match = instr.program_id == *target_program;
            let (k, sel) = classify_and_select(&instr.data, target_kinds);
            let ghost pre_map = spec_sites_view(hits@);
            let ghost base = top + spec_inner_sites(tx.inner_instructions@, target, kinds, g as int);
            let ghost gsj = spec_group_sites(group.instructions@, target, kinds, g as int, j as int);
            if pid_match && sel {
                hits.push(
                    ClassifiedInstruction {
                        kind: k,
                        site: InstructionSite::Inner { group: g, index: j },
                    },
                );
                proof {
                    let site = InstructionSite::Inner { group: g, index: j };
                    assert(spec_instr_hit(group.instructions@[j as int], target, kinds));
                    assert(spec_sites_view(hits@) =~= pre_map.push(site));
                    assert(spec_group_sites(group.instructions@, target, kinds, g as int, j + 1)
                        == gsj.push(site));
                    assert(spec_sites_view(hits@) =~= base + gsj.push(site));
                }
            } else {
                proof {
                    assert(!spec_instr_hit(group.instructions@[j as int], target, kinds));
                    assert(spec_group_sites(group.instructions@, target, kinds, g as int, j + 1)
                        == gsj);
                }
            }
            proof {
                assert(spec_sites_view(hits@) =~= top
                    + spec_inner_sites(tx.inner_instructions@, target, kinds, g as int)
                    + spec_group_sites(group.instructions@, target, kinds, g as int, j + 1));
            }
            j = j + 1;
        }
        proof {
            assert(spec_inner_sites(tx.inner_instructions@, target, kinds, g + 1)
                == spec_inner_sites(tx.inner_instructions@, target, kinds, g as int)
                + spec_group_sites(
                tx.inner_instructions@[g as int].instructions@,
                target,
                kinds,
                g as int,
                tx.inner_instructions@[g as int].instructions@.len() as int,
            ));
            assert(spec_sites_view(hits@) =~= top + spec_inner_sites(
                tx.inner_instructions@,
                target,
                kinds,
                g + 1,
            ));
        }
        g = g + 1;
    }
    hits
}

} // verus!
