use vstd::prelude::*;
use crate::b58::{base58_encode, base58_of};

verus! {

// ------------------------------------------------------------------
// Input model: a transaction update as plain values.
// ------------------------------------------------------------------

/// One compiled instruction as the feed delivers it: raw indices into the
/// transaction's account-key table, plus the instruction data.
pub struct InstructionInput {
    pub program_id_index: u32,
    pub accounts: Vec<u8>,
    pub data: Vec<u8>,
}

/// A group of inner instructions, attached to the top-level instruction whose
/// position is `index`.
pub struct InnerInstructionsInput {
    pub index: u32,
    pub instructions: Vec<InstructionInput>,
}

/// One token-balance snapshot entry; `ui_amount` is present only when the feed
/// rendered a display amount for it.
pub struct TokenBalanceInput {
    pub account_index: u32,
    pub mint: String,
    pub owner: String,
    pub ui_amount: Option<String>,
}

/// Everything of a transaction update that the decoder reads.
pub struct TransactionUpdateInput {
    pub slot: u64,
    pub is_vote: bool,
    pub signature: Vec<u8>,
    pub account_keys: Vec<Vec<u8>>,
    pub recent_blockhash: Vec<u8>,
    pub instructions: Vec<InstructionInput>,
    pub has_error: bool,
    pub fee: u64,
    pub pre_token_balances: Vec<TokenBalanceInput>,
    pub post_token_balances: Vec<TokenBalanceInput>,
    pub inner_instructions: Vec<InnerInstructionsInput>,
    pub log_messages: Vec<String>,
    pub loaded_writable_addresses: Vec<Vec<u8>>,
    pub loaded_readonly_addresses: Vec<Vec<u8>>,
}

// ------------------------------------------------------------------
// Output model: the structured record.
// ------------------------------------------------------------------

/// A top-level or inner instruction with its indices resolved against the
/// account-key table.
#[derive(Clone, Debug, PartialEq, Eq)]
pub struct ParsedInstruction {
    /// The table entry at the raw program index, or "unknown" out of range.
    pub program_id: String,
    pub program_id_index: u32,
    /// (account index, resolved key) pairs in instruction order; an
    /// out-of-range index is dropped.
    pub accounts: Vec<(u8, String)>,
    pub data: Vec<u8>,
}

/// An inner-instruction group: the owning top-level instruction's index plus
/// the group's resolved instructions.
#[derive(Clone, Debug, PartialEq, Eq)]
pub struct ParsedInnerInstruction {
    pub index: u32,
    pub instructions: Vec<ParsedInstruction>,
}

/// A kept token-balance entry: one that carried a display amount.
#[derive(Clone, Debug, PartialEq, Eq)]
pub struct ParsedTokenBalance {
    pub account_index: u32,
    pub mint: String,
    pub owner: String,
    pub ui_amount: String,
}

/// The structured record of one transaction update.
#[derive(Clone, Debug, PartialEq, Eq)]
pub struct ParsedTransaction {
    pub signature: String,
    pub is_vote: bool,
    pub account_keys: Vec<String>,
    pub recent_blockhash: String,
    pub instructions: Vec<ParsedInstruction>,
    pub success: bool,
    pub fee: u64,
    pub pre_token_balances: Vec<ParsedTokenBalance>,
    pub post_token_balances: Vec<ParsedTokenBalance>,
    pub inner_instructions: Vec<ParsedInnerInstruction>,
    pub slot: u64,
    pub logs: Vec<String>,
}

// ------------------------------------------------------------------
// Specification of the decode.
// ------------------------------------------------------------------

/// The views of a sequence of strings.
pub open spec fn spec_strings_view(v: Seq<String>) -> Seq<Seq<char>> {
    v.map_values(|s: String| s@)
}

/// The resolved account-key table: every static key, then every
/// writable-expansion key, then every readonly-expansion key, in that order,
/// each base-58 encoded.
pub open spec fn spec_account_table(input: TransactionUpdateInput) -> Seq<Seq<char>> {
    input.account_keys@.map_values(|k: Vec<u8>| base58_of(k@)) + input.loaded_writable_addresses@
        .map_values(|k: Vec<u8>| base58_of(k@)) + input.loaded_readonly_addresses@.map_values(
        |k: Vec<u8>| base58_of(k@),
    )
}

/// The resolved program id: the table entry at the raw index, the "unknown"
/// sentinel out of range.
pub open spec fn spec_resolve_program_id(idx: u32, table: Seq<Seq<char>>) -> Seq<char> {
    if idx < table.len() {
        table[idx as int]
    } else {
        "unknown"@
    }
}

/// The resolved accounts of the first `n` raw indices: each in-range index
/// paired with its table entry, out-of-range indices dropped.
pub open spec fn spec_resolve_accounts_prefix(
    accs: Seq<u8>,
    table: Seq<Seq<char>>,
    n: int,
) -> Seq<(u8, Seq<char>)>
    decreases n,
{
    if n <= 0 {
        Seq::empty()
    } else {
        let prev = spec_resolve_accounts_prefix(accs, table, n - 1);
        if accs[n - 1] < table.len() {
            prev.push((accs[n - 1], table[accs[n - 1] as int]))
        } else {
            prev
        }
    }
}

/// The resolved accounts of a whole raw index list.
pub open spec fn spec_resolve_accounts(accs: Seq<u8>, table: Seq<Seq<char>>) -> Seq<
    (u8, Seq<char>),
> {
    spec_resolve_accounts_prefix(accs, table, accs.len() as int)
}

/// The views of a resolved account list.
pub open spec fn spec_accounts_view(v: Seq<(u8, String)>) -> Seq<(u8, Seq<char>)> {
    v.map_values(|p: (u8, String)| (p.0, p.1@))
}

/// Whether `out` is the correct resolution of `inp` against `table`.
pub open spec fn spec_parsed_instruction(
    inp: InstructionInput,
    table: Seq<Seq<char>>,
    out: ParsedInstruction,
) -> bool {
    &&& out.program_id_index == inp.program_id_index
    &&& out.program_id@ == spec_resolve_program_id(inp.program_id_index, table)
    &&& spec_accounts_view(out.accounts@) == spec_resolve_accounts(inp.accounts@, table)
    &&& out.data@ == inp.data@
}

/// Whether `outs` resolves `inps` element by element.
pub open spec fn spec_parsed_instructions(
    inps: Seq<InstructionInput>,
    table: Seq<Seq<char>>,
    outs: Seq<ParsedInstruction>,
) -> bool {
    &&& outs.len() == inps.len()
    &&& forall|i: int|
        0 <= i < inps.len() ==> spec_parsed_instruction(inps[i], table, #[trigger] outs[i])
}

/// Whether `outs` resolves the inner-instruction groups `inps`, keeping each
/// group's tag.
pub open spec fn spec_parsed_inner(
    inps: Seq<InnerInstructionsInput>,
    table: Seq<Seq<char>>,
    outs: Seq<ParsedInnerInstruction>,
) -> bool {
    &&& outs.len() == inps.len()
    &&& forall|g: int|
        0 <= g < inps.len() ==> (#[trigger] outs[g]).index == inps[g].index
            && spec_parsed_instructions(inps[g].instructions@, table, outs[g].instructions@)
}

/// The view of one kept balance entry.
pub open spec fn spec_balance_view(b: ParsedTokenBalance) -> (u32, Seq<char>, Seq<char>, Seq<char>) {
    (b.account_index, b.mint@, b.owner@, b.ui_amount@)
}

/// The balance entries among the first `n` that carry a display amount, in
/// order, as views.
pub open spec fn spec_kept_balances_prefix(v: Seq<TokenBalanceInput>, n: int) -> Seq<
    (u32, Seq<char>, Seq<char>, Seq<char>),
>
    decreases n,
{
    if n <= 0 {
        Seq::empty()
    } else {
        let prev = spec_kept_balances_prefix(v, n - 1);
        match v[n - 1].ui_amount {
            Some(a) => prev.push((v[n - 1].account_index, v[n - 1].mint@, v[n - 1].owner@, a@)),
            None => prev,
        }
    }
}

/// The kept balance entries of a whole snapshot.
pub open spec fn spec_kept_balances(v: Seq<TokenBalanceInput>) -> Seq<
    (u32, Seq<char>, Seq<char>, Seq<char>),
> {
    spec_kept_balances_prefix(v, v.len() as int)
}

// ------------------------------------------------------------------
// The decoder.
// ------------------------------------------------------------------

/// A copy of a byte vector.
fn clone_bytes(v: &Vec<u8>) -> (out: Vec<u8>)
    ensures
        out@ == v@,
{
    vstd::slice::slice_to_vec(v.as_slice())
}

/// A copy of a string vector.
fn clone_strings(v: &Vec<String>) -> (out: Vec<String>)
    ensures
        out@ == v@,
{
    let mut out: Vec<String> = Vec::new();
    let mut i: usize = 0;
    while i < v.len()
        invariant
            i <= v@.len(),
            out@ =~= v@.take(i as int),
        decreases v@.len() - i,
    {
        out.push(v[i].clone());
        i = i + 1;
    }
    proof {
        assert(out@ =~= v@);
    }
    out
}

/// Builds the account-key table of a transaction: base-58 encodes the static
/// keys, then the loaded writable keys, then the loaded readonly keys. The
/// table always has exactly one entry per source key, in that concatenation
/// order.
pub fn build_account_table(input: &TransactionUpdateInput) -> (table: Vec<String>)
    ensures
        spec_strings_view(table@) == spec_account_table(*input),
        table@.len() == input.account_keys@.len() + input.loaded_writable_addresses@.len()
            + input.loaded_readonly_addresses@.len(),
{
    let mut table: Vec<String> = Vec::new();
    let n = input.account_keys.len();
    let m = input.loaded_writable_addresses.len();
    let k = input.loaded_readonly_addresses.len();
    let mut i: usize = 0;
    while i < n
        invariant
            n == input.account_keys@.len(),
            i <= n,
            table@.len() == i,
            forall|j: int|
                0 <= j < i ==> (#[trigger] table@[j])@ == base58_of(input.account_keys@[j]@),
        decreases n - i,
    {
        table.push(base58_encode(input.account_keys[i].as_slice()));
        i = i + 1;
    }
    let mut i: usize = 0;
    while i < m
        invariant
            n == input.account_keys@.len(),
            m == input.loaded_writable_addresses@.len(),
            i <= m,
            table@.len() == n + i,
            forall|j: int|
                0 <= j < n ==> (#[trigger] table@[j])@ == base58_of(input.account_keys@[j]@),
            forall|j: int|
                0 <= j < i ==> (#[trigger] table@[n + j])@ == base58_of(
                    input.loaded_writable_addresses@[j]@,
                ),
        decreases m - i,
    {
        table.push(base58_encode(input.loaded_writable_addresses[i].as_slice()));
        i = i + 1;
    }
    let mut i: usize = 0;
    while i < k
        invariant
            n == input.account_keys@.len(),
            m == input.loaded_writable_addresses@.len(),
            k == input.loaded_readonly_addresses@.len(),
            i <= k,
            table@.len() == n + m + i,
            forall|j: int|
                0 <= j < n ==> (#[trigger] table@[j])@ == base58_of(input.account_keys@[j]@),
            forall|j: int|
                0 <= j < m ==> (#[trigger] table@[n + j])@ == base58_of(
                    input.loaded_writable_addresses@[j]@,
                ),
            forall|j: int|
                0 <= j < i ==> (#[trigger] table@[n + m + j])@ == base58_of(
                    input.loaded_readonly_addresses@[j]@,
                ),
        decreases k - i,
    {
        table.push(base58_encode(input.loaded_readonly_addresses[i].as_slice()));
        i = i + 1;
    }
    proof {
        let t = spec_strings_view(table@);
        let s = spec_account_table(*input);
        let sa = input.account_keys@.map_values(|key: Vec<u8>| base58_of(key@));
        let sb = input.loaded_writable_addresses@.map_values(|key: Vec<u8>| base58_of(key@));
        let sc = input.loaded_readonly_addresses@.map_values(|key: Vec<u8>| base58_of(key@));
        assert(s == sa + sb + sc);
        assert(sa.len() == n && sb.len() == m && sc.len() == k);
        assert(t.len() == s.len());
        assert forall|j: int| 0 <= j < t.len() implies t[j] == s[j] by {
            assert(t[j] == table@[j]@);
            if j < n {
                assert(s[j] == sa[j]);
                assert(sa[j] == base58_of(input.account_keys@[j]@));
            } else if j < n + m {
                assert(s[j] == sb[j - n]);
                assert(sb[j - n] == base58_of(input.loaded_writable_addresses@[j - n]@));
                assert(table@[n + (j - n)]@ == base58_of(input.loaded_writable_addresses@[j - n]@));
            } else {
                assert(s[j] == sc[j - n - m]);
                assert(sc[j - n - m] == base58_of(input.loaded_readonly_addresses@[j - n - m]@));
                assert(table@[n + m + (j - n - m)]@ == base58_of(
                    input.loaded_readonly_addresses@[j - n - m]@,
                ));
            }
        }
        assert(t =~= s);
    }
    table
}

/// Resolves one instruction against the account-key table: the program id by
/// index with the "unknown" sentinel out of range, the account list by index
/// with out-of-range entries dropped, the data verbatim.
pub fn resolve_instruction(inp: &InstructionInput, table: &Vec<String>) -> (out: ParsedInstruction)
    ensures
        spec_parsed_instruction(*inp, spec_strings_view(table@), out),
{
    let ghost tview = spec_strings_view(table@);
    let program_id: String = if (inp.program_id_index as usize) < table.len() {
        table[inp.program_id_index as usize].clone()
    } else {
        "unknown".to_owned()
    };
    let mut accounts: Vec<(u8, String)> = Vec::new();
    let mut i: usize = 0;
    while i < inp.accounts.len()
        invariant
            tview == spec_strings_view(table@),
            i <= inp.accounts@.len(),
            spec_accounts_view(accounts@) =~= spec_resolve_accounts_prefix(
                inp.accounts@,
                tview,
                i as int,
            ),
        decreases inp.accounts@.len() - i,
    {
        let idx = inp.accounts[i];
        if (idx as usize) < table.len() {
            accounts.push((idx, table[idx as usize].clone()));
        }
        proof {
            assert(spec_accounts_view(accounts@) =~= spec_resolve_accounts_prefix(
                inp.accounts@,
                tview,
                i + 1,
            ));
        }
        i = i + 1;
    }
    let data = clone_bytes(&inp.data);
    ParsedInstruction { program_id, program_id_index: inp.program_id_index, accounts, data }
}

/// Resolves a whole instruction list.
fn resolve_instructions(inps: &Vec<InstructionInput>, table: &Vec<String>) -> (outs: Vec<
    ParsedInstruction,
>)
    ensures
        spec_parsed_instructions(inps@, spec_strings_view(table@), outs@),
{
    let mut outs: Vec<ParsedInstruction> = Vec::new();
    let mut i: usize = 0;
    while i < inps.len()
        invariant
            i <= inps@.len(),
            outs@.len() == i,
            forall|j: int|
                0 <= j < i ==> spec_parsed_instruction(
                    inps@[j],
                    spec_strings_view(table@),
                    #[trigger] outs@[j],
                ),
        decreases inps@.len() - i,
    {
        let out = resolve_instruction(&inps[i], table);
        outs.push(out);
        i = i + 1;
    }
    outs
}

/// Keeps the balance entries that carry a display amount.
fn keep_balances(v: &Vec<TokenBalanceInput>) -> (outs: Vec<ParsedTokenBalance>)
    ensures
        outs@.map_values(|b: ParsedTokenBalance| spec_balance_view(b)) == spec_kept_balances(v@),
{
    let mut outs: Vec<ParsedTokenBalance> = Vec::new();
    let mut i: usize = 0;
    while i < v.len()
        invariant
            i <= v@.len(),
            outs@.map_values(|b: ParsedTokenBalance| spec_balance_view(b))
                =~= spec_kept_balances_prefix(v@, i as int),
        decreases v@.len() - i,
    {
        match &v[i].ui_amount {
            Some(a) => {
                let b = ParsedTokenBalance {
                    account_index: v[i].account_index,
                    mint: v[i].mint.clone(),
                    owner: v[i].owner.clone(),
                    ui_amount: a.clone(),
                };
                outs.push(b);
            },
            None => {},
        }
        proof {
            assert(outs@.map_values(|b: ParsedTokenBalance| spec_balance_view(b))
                =~= spec_kept_balances_prefix(v@, i + 1));
        }
        i = i + 1;
    }
    outs
}

/// Whether `out` is the correct structured record of `input`: signature and
/// blockhash base-58 encoded, the account table in concatenation order, every
/// top-level and inner instruction resolved against it, balances kept exactly
/// when they carry a display amount, and the scalar fields copied.
pub open spec fn spec_decoded_transaction(
    input: TransactionUpdateInput,
    out: ParsedTransaction,
) -> bool {
    &&& out.signature@ == base58_of(input.signature@)
    &&& out.recent_blockhash@ == base58_of(input.recent_blockhash@)
    &&& out.is_vote == input.is_vote
    &&& out.slot == input.slot
    &&& out.fee == input.fee
    &&& out.success == !input.has_error
    &&& spec_strings_view(out.account_keys@) == spec_account_table(input)
    &&& out.account_keys@.len() == input.account_keys@.len()
        + input.loaded_writable_addresses@.len() + input.loaded_readonly_addresses@.len()
    &&& spec_parsed_instructions(input.instructions@, spec_account_table(input), out.instructions@)
    &&& spec_parsed_inner(
        input.inner_instructions@,
        spec_account_table(input),
        out.inner_instructions@,
    )
    &&& out.pre_token_balances@.map_values(|b: ParsedTokenBalance| spec_balance_view(b))
        == spec_kept_balances(input.pre_token_balances@)
    &&& out.post_token_balances@.map_values(|b: ParsedTokenBalance| spec_balance_view(b))
        == spec_kept_balances(input.post_token_balances@)
    &&& out.logs@ == input.log_messages@
}

/// Decodes one transaction update into the structured record. Every step is
/// fault tolerant: out-of-range instruction account indices are dropped, an
/// out-of-range program index resolves to "unknown", and balance entries
/// without a display amount are left out; the decode itself never fails.
pub fn decode_transaction(input: &TransactionUpdateInput) -> (out: ParsedTransaction)
    ensures
        spec_decoded_transaction(*input, out),
        out.signature@ == base58_of(input.signature@),
        out.recent_blockhash@ == base58_of(input.recent_blockhash@),
        out.is_vote == input.is_vote,
        out.slot == input.slot,
        out.fee == input.fee,
        out.success == !input.has_error,
        spec_strings_view(out.account_keys@) == spec_account_table(*input),
        out.account_keys@.len() == input.account_keys@.len()
            + input.loaded_writable_addresses@.len() + input.loaded_readonly_addresses@.len(),
        spec_parsed_instructions(input.instructions@, spec_account_table(*input), out.instructions@),
        spec_parsed_inner(
            input.inner_instructions@,
            spec_account_table(*input),
            out.inner_instructions@,
        ),
        out.pre_token_balances@.map_values(|b: ParsedTokenBalance| spec_balance_view(b))
            == spec_kept_balances(input.pre_token_balances@),
        out.post_token_balances@.map_values(|b: ParsedTokenBalance| spec_balance_view(b))
            == spec_kept_balances(input.post_token_balances@),
        out.logs@ == input.log_messages@,
{
    let table = build_account_table(input);
    let signature = base58_encode(input.signature.as_slice());
    let recent_blockhash = base58_encode(input.recent_blockhash.as_slice());
    let instructions = resolve_instructions(&input.instructions, &table);
    let mut inner: Vec<ParsedInnerInstruction> = Vec::new();
    let mut g: usize = 0;
    while g < input.inner_instructions.len()
        invariant
            g <= input.inner_instructions@.len(),
            spec_strings_view(table@) == spec_account_table(*input),
            inner@.len() == g,
            forall|j: int|
                0 <= j < g ==> (#[trigger] inner@[j]).index == input.inner_instructions@[j].index
                    && spec_parsed_instructions(
                    input.inner_instructions@[j].instructions@,
                    spec_account_table(*input),
                    inner@[j].instructions@,
                ),
        decreases input.inner_instructions@.len() - g,
    {
        let group = &input.inner_instructions[g];
        let resolved = resolve_instructions(&group.instructions, &table);
        inner.push(ParsedInnerInstruction { index: group.index, instructions: resolved });
        g = g + 1;
    }
    let pre = keep_balances(&input.pre_token_balances);
    let post = keep_balances(&input.post_token_balances);
    let logs = clone_strings(&input.log_messages);
    ParsedTransaction {
        signature,
        is_vote: input.is_vote,
        account_keys: table,
        recent_blockhash,
        instructions,
        success: !input.has_error,
        fee: input.fee,
        pre_token_balances: pre,
        post_token_balances: post,
        inner_instructions: inner,
        slot: input.slot,
        logs,
    }
}

} // verus!
