//! Selection of the collections minted through Lyra: a collection is kept when
//! the metadata of its first token is pinned on the public Pinata IPFS gateway,
//! and that token's metadata address is moved to the dedicated gateway.
use vstd::prelude::*;
use vstd::string::*;
use crate::text::push_char;

verus! {

/// A token of a collection, as the indexer describes it: the address of its
/// metadata, and its other members carried along as JSON text.
#[derive(Debug)]
pub struct Token {
    pub other_fields: String,
    pub token_uri: String,
}

impl View for Token {
    type V = (Seq<char>, Seq<char>);

    open spec fn view(&self) -> (Seq<char>, Seq<char>) {
        (self.other_fields@, self.token_uri@)
    }
}

/// A token contract (a collection) with its tokens.
#[derive(Debug)]
pub struct TokenContracts {
    pub id: String,
    pub supports_eip721_metadata: bool,
    pub tokens: Vec<Token>,
}

/// The view of a collection: its id, its metadata flag, and its tokens (each
/// as its other members and its metadata address).
pub type ContractView = (Seq<char>, bool, Seq<(Seq<char>, Seq<char>)>);

impl View for TokenContracts {
    type V = ContractView;

    open spec fn view(&self) -> ContractView {
        (self.id@, self.supports_eip721_metadata, self.tokens@.map_values(|t: Token| t@))
    }
}

/// The `data` member of the indexer's answer.
#[derive(Debug)]
pub struct Data {
    pub token_contracts: Vec<TokenContracts>,
}

/// The indexer's answer to the Lyra collections request.
#[derive(Debug)]
pub struct LyraJson {
    pub data: Data,
}

impl View for LyraJson {
    type V = Seq<ContractView>;

    open spec fn view(&self) -> Seq<ContractView> {
        self.data.token_contracts@.map_values(|c: TokenContracts| c@)
    }
}

/// The address prefix of metadata pinned on the public Pinata IPFS gateway.
pub const PINATA_IPFS_PREFIX: &'static str = "https://gateway.pinata.cloud/ipfs/";

/// The public Pinata gateway.
pub const PINATA_PUBLIC_GATEWAY: &'static str = "https://gateway.pinata.cloud/";

/// The dedicated gateway that replaces the public one.
pub const MEDICI_GATEWAY: &'static str = "https://medici-test.mypinata.cloud/";

/// `p` occurs in `s` starting at position `i`.
pub open spec fn occurs_at(s: Seq<char>, p: Seq<char>, i: int) -> bool {
    0 <= i && i + p.len() <= s.len() && s.subrange(i, i + p.len()) == p
}

/// `p` occurs somewhere in `s`.
pub open spec fn contains_text(s: Seq<char>, p: Seq<char>) -> bool {
    exists|i: int| occurs_at(s, p, i)
}

/// Every occurrence of the non-empty `from` in `s` replaced by `to`, scanning
/// from the left and resuming after each replaced occurrence.
pub open spec fn replace_all(s: Seq<char>, from: Seq<char>, to: Seq<char>) -> Seq<char>
    decreases s.len(),
{
    if s.len() == 0 || from.len() == 0 {
        s
    } else if from.len() <= s.len() && s.take(from.len() as int) == from {
        to + replace_all(s.skip(from.len() as int), from, to)
    } else {
        seq![s[0]] + replace_all(s.skip(1), from, to)
    }
}

/// What becomes of one collection: kept, with its first token alone and that
/// token's metadata address moved to the dedicated gateway, when that address
/// is on the public IPFS gateway; dropped otherwise.
pub open spec fn lyra_mint(c: ContractView) -> Option<ContractView> {
    let t = c.2[0];
    if contains_text(t.1, PINATA_IPFS_PREFIX@) {
        Some((c.0, c.1, seq![(t.0, replace_all(t.1, PINATA_PUBLIC_GATEWAY@, MEDICI_GATEWAY@))]))
    } else {
        None
    }
}

/// The selected collections, in the order of the input.
pub open spec fn lyra_selection(cs: Seq<ContractView>) -> Seq<ContractView> {
    cs.filter_map(|c: ContractView| lyra_mint(c))
}

/// The characters of a string slice.
fn chars_of(s: &str) -> (res: Vec<char>)
    ensures
        res@ == s@,
{
    let n = s.unicode_len();
    let mut res: Vec<char> = Vec::new();
    let mut i: usize = 0;
    while i < n
        invariant
            n == s@.len(),
            i <= n,
            res@ == s@.take(i as int),
        decreases n - i,
    {
        let c = s.get_char(i);
        res.push(c);
        assert(res@ =~= s@.take(i + 1));
        i = i + 1;
    }
    assert(res@ =~= s@);
    res
}

/// Whether `p` occurs in `s` at position `i`.
fn occurs_at_exec(s: &Vec<char>, p: &Vec<char>, i: usize) -> (res: bool)
    requires
        i <= s@.len(),
    ensures
        res == occurs_at(s@, p@, i as int),
{
    let n = s.len();
    let m = p.len();
    if m > n - i {
        return false;
    }
    let mut k: usize = 0;
    while k < m
        invariant
            n == s@.len(),
            m == p@.len(),
            i + m <= n,
            k <= m,
            forall|j: int| 0 <= j < k ==> s@[i + j] == p@[j],
        decreases m - k,
    {
        if s[i + k] != p[k] {
            assert(s@.subrange(i as int, i + m)[k as int] != p@[k as int]);
            return false;
        }
        k = k + 1;
    }
    assert(s@.subrange(i as int, i + m) =~= p@);
    true
}

/// Whether `pattern` occurs in `text`.
pub fn text_contains(text: &str, pattern: &str) -> (res: bool)
    ensures
        res == contains_text(text@, pattern@),
{
    let s = chars_of(text);
    let p = chars_of(pattern);
    let n = s.len();
    let m = p.len();
    if m > n {
        assert forall|i: int| !occurs_at(s@, p@, i) by {}
        return false;
    }
    if m == 0 {
        assert(s@.subrange(0, 0) =~= p@);
        assert(occurs_at(s@, p@, 0));
        return true;
    }
    let mut i: usize = 0;
    while i <= n - m
        invariant
            n == s@.len(),
            m == p@.len(),
            0 < m <= n,
            s@ == text@,
            p@ == pattern@,
            i <= n - m + 1,
            forall|j: int| 0 <= j < i ==> !occurs_at(s@, p@, j),
        decreases n - m + 1 - i,
    {
        if occurs_at_exec(&s, &p, i) {
            assert(occurs_at(text@, pattern@, i as int));
            return true;
        }
        i = i + 1;
    }
    assert forall|j: int| !occurs_at(s@, p@, j) by {
        if 0 <= j < i {
        }
    }
    false
}

/// `text` with every occurrence of the non-empty `from` replaced by `to`.
pub fn replace_text(text: &str, from: &str, to: &str) -> (res: String)
    requires
        from@.len() > 0,
    ensures
        res@ == replace_all(text@, from@, to@),
{
    let s = chars_of(text);
    let p = chars_of(from);
    let ghost sv = s@;
    let ghost fv = p@;
    let ghost tv = to@;
    let n = s.len();
    let m = p.len();
    let mut res = String::new();
    let mut i: usize = 0;
    assert(sv.skip(0) =~= sv);
    while i < n
        invariant
            n == sv.len(),
            m == fv.len(),
            m > 0,
            sv == s@,
            fv == p@,
            tv == to@,
            i <= n,
            res@ + replace_all(sv.skip(i as int), fv, tv) == replace_all(sv, fv, tv),
        decreases n - i,
    {
        let ghost rest = sv.skip(i as int);
        if occurs_at_exec(&s, &p, i) {
            assert(rest.take(m as int) =~= sv.subrange(i as int, i + m));
            assert(rest.skip(m as int) =~= sv.skip(i + m));
            assert(replace_all(rest, fv, tv) == tv + replace_all(sv.skip(i + m), fv, tv));
            let ghost old_res = res@;
            res.append(to);
            assert(res@ + replace_all(sv.skip(i + m), fv, tv) =~= old_res + (tv + replace_all(sv.skip(i + m), fv, tv)));
            i = i + m;
        } else {
            proof {
                if m <= rest.len() {
                    assert(rest.take(m as int) =~= sv.subrange(i as int, i + m));
                }
            }
            assert(rest.skip(1) =~= sv.skip(i + 1));
            assert(rest[0] == sv[i as int]);
            assert(replace_all(rest, fv, tv) == seq![sv[i as int]] + replace_all(sv.skip(i + 1), fv, tv));
            let ghost old_res = res@;
            push_char(&mut res, s[i]);
            assert(res@ + replace_all(sv.skip(i + 1), fv, tv) =~= old_res + (seq![sv[i as int]] + replace_all(sv.skip(i + 1), fv, tv)));
            i = i + 1;
        }
    }
    assert(sv.skip(n as int) =~= Seq::<char>::empty());
    assert(res@ + replace_all(sv.skip(n as int), fv, tv) =~= res@);
    res
}

/// Keeps the collections minted through Lyra, each with its first token
/// alone, that token's metadata address moved from the public Pinata gateway
/// to the dedicated one. Every collection must have a token.
pub fn filter_collections_for_lyra_mints(parsed: LyraJson) -> (res: LyraJson)
    requires
        forall|i: int| 0 <= i < parsed.data.token_contracts@.len() ==> #[trigger] parsed.data.token_contracts@[i].tokens@.len() > 0,
    ensures
        res@ == lyra_selection(parsed@),
{
    let contracts = &parsed.data.token_contracts;
    let ghost cs = parsed@;
    let mut kept: Vec<TokenContracts> = Vec::new();
    let n = contracts.len();
    let mut i: usize = 0;
    proof {
        reveal_strlit("https://gateway.pinata.cloud/");
    }
    while i < n
        invariant
            n == contracts@.len(),
            i <= n,
            cs == contracts@.map_values(|c: TokenContracts| c@),
            forall|j: int| 0 <= j < contracts@.len() ==> #[trigger] contracts@[j].tokens@.len() > 0,
            kept@.map_values(|c: TokenContracts| c@) == lyra_selection(cs.take(i as int)),
            PINATA_PUBLIC_GATEWAY@.len() > 0,
        decreases n - i,
    {
        let collection = &contracts[i];
        let token = &collection.tokens[0];
        assert(cs.take(i + 1).drop_last() =~= cs.take(i as int));
        assert(cs.take(i + 1).last() == collection@);
        assert(collection@.2[0] == token@);
        if text_contains(token.token_uri.as_str(), PINATA_IPFS_PREFIX) {
            let new_token = Token {
                other_fields: token.other_fields.clone(),
                token_uri: replace_text(token.token_uri.as_str(), PINATA_PUBLIC_GATEWAY, MEDICI_GATEWAY),
            };
            let mut tokens = Vec::new();
            tokens.push(new_token);
            let new_collection = TokenContracts {
                id: collection.id.clone(),
                supports_eip721_metadata: collection.supports_eip721_metadata,
                tokens,
            };
            let ghost before = kept@;
            kept.push(new_collection);
            assert(new_collection@.2 =~= seq![(token@.0, replace_all(token@.1, PINATA_PUBLIC_GATEWAY@, MEDICI_GATEWAY@))]);
            assert(kept@.map_values(|c: TokenContracts| c@) =~= before.map_values(|c: TokenContracts| c@).push(new_collection@));
        }
        i = i + 1;
    }
    assert(cs.take(n as int) =~= cs);
    LyraJson { data: Data { token_contracts: kept } }
}

/// The selection never grows, and every selected collection holds exactly one
/// token.
pub proof fn lyra_selection_single_tokens(cs: Seq<ContractView>)
    ensures
        lyra_selection(cs).len() <= cs.len(),
        forall|k: int| 0 <= k < lyra_selection(cs).len() ==> (#[trigger] lyra_selection(cs)[k]).2.len() == 1,
    decreases cs.len(),
{
    if cs.len() > 0 {
        lyra_selection_single_tokens(cs.drop_last());
        assert(lyra_selection(cs) == cs.drop_last().filter_map(|c: ContractView| lyra_mint(c)) + match lyra_mint(cs.last()) {
            Some(x) => seq![x],
            None => Seq::empty(),
        });
    }
}

/// Every selected collection comes from a collection of the input, of which
/// it is the rewritten form.
pub proof fn lyra_selection_from_input(cs: Seq<ContractView>)
    ensures
        forall|k: int| 0 <= k < lyra_selection(cs).len() ==> exists|j: int| 0 <= j < cs.len() && lyra_mint(#[trigger] cs[j]) == Some(#[trigger] lyra_selection(cs)[k]),
    decreases cs.len(),
{
    if cs.len() > 0 {
        let init = cs.drop_last();
        lyra_selection_from_input(init);
        let sel = lyra_selection(cs);
        assert forall|k: int| 0 <= k < sel.len() implies exists|j: int| 0 <= j < cs.len() && lyra_mint(#[trigger] cs[j]) == Some(#[trigger] sel[k]) by {
            if k < lyra_selection(init).len() {
                let j = choose|j: int| 0 <= j < init.len() && lyra_mint(#[trigger] init[j]) == Some(lyra_selection(init)[k]);
                assert(sel[k] == lyra_selection(init)[k]);
                assert(cs[j] == init[j]);
            } else {
                assert(lyra_mint(cs[cs.len() - 1]) == Some(sel[k]));
            }
        }
    }
}

/// Text without an occurrence of `from` is left as it is.
pub proof fn replace_all_without_occurrence(s: Seq<char>, from: Seq<char>, to: Seq<char>)
    requires
        !contains_text(s, from),
    ensures
        replace_all(s, from, to) == s,
    decreases s.len(),
{
    if s.len() > 0 && from.len() > 0 {
        if from.len() <= s.len() && s.take(from.len() as int) == from {
            assert(s.subrange(0, from.len() as int) =~= s.take(from.len() as int));
            assert(occurs_at(s, from, 0));
        } else {
            let rest = s.skip(1);
            assert forall|i: int| !occurs_at(rest, from, i) by {
                if occurs_at(rest, from, i) {
                    assert(s.subrange(i + 1, i + 1 + from.len()) =~= rest.subrange(i, i + from.len()));
                    assert(occurs_at(s, from, i + 1));
                }
            }
            replace_all_without_occurrence(rest, from, to);
            assert(seq![s[0]] + rest =~= s);
        }
    }
}

/// A replacement that cannot leave or create an occurrence of the pattern:
/// both begin with the same character, which occurs nowhere else in either,
/// and they differ within their common length.
pub open spec fn clean_replacement(from: Seq<char>, to: Seq<char>) -> bool {
    &&& from.len() > 0
    &&& to.len() > 0
    &&& to[0] == from[0]
    &&& forall|i: int| 1 <= i < from.len() ==> #[trigger] from[i] != from[0]
    &&& forall|i: int| 1 <= i < to.len() ==> #[trigger] to[i] != from[0]
    &&& exists|k: int| 0 <= k < from.len() && k < to.len() && #[trigger] to[k] != from[k]
}

/// Up to the first character that begins the pattern, the result of a
/// replacement is the text itself.
proof fn replaced_prefix_is_copied(s: Seq<char>, from: Seq<char>, to: Seq<char>, j: int)
    requires
        clean_replacement(from, to),
        0 <= j <= replace_all(s, from, to).len(),
        forall|i: int| 0 <= i < j ==> #[trigger] replace_all(s, from, to)[i] != from[0],
    ensures
        j <= s.len(),
        replace_all(s, from, to).take(j) == s.take(j),
    decreases s.len(),
{
    let o = replace_all(s, from, to);
    if j > 0 {
        if s.len() == 0 {
        } else if from.len() <= s.len() && s.take(from.len() as int) == from {
            assert(o[0] == to[0]);
        } else {
            let rest = s.skip(1);
            let o2 = replace_all(rest, from, to);
            assert(o == seq![s[0]] + o2);
            assert forall|i: int| 0 <= i < j - 1 implies #[trigger] o2[i] != from[0] by {
                assert(o[i + 1] == o2[i]);
            }
            replaced_prefix_is_copied(rest, from, to, j - 1);
            assert(o.take(j) =~= seq![s[0]] + o2.take(j - 1));
            assert(s.take(j) =~= seq![s[0]] + rest.take(j - 1));
        }
    }
}

/// `c` does not occur in `s` from position `i` on.
spec fn char_absent_from(s: Seq<char>, c: char, i: int) -> bool
    decreases s.len() - i,
{
    if i < 0 || i >= s.len() {
        true
    } else {
        s[i] != c && char_absent_from(s, c, i + 1)
    }
}

proof fn char_absent_from_all(s: Seq<char>, c: char, i: int)
    requires
        0 <= i,
        char_absent_from(s, c, i),
    ensures
        forall|k: int| i <= k < s.len() ==> s[k] != c,
    decreases s.len() - i,
{
    if i < s.len() {
        char_absent_from_all(s, c, i + 1);
    }
}

/// Moving addresses from the public gateway to the dedicated one is a clean
/// replacement.
proof fn gateway_replacement_is_clean()
    ensures
        clean_replacement(PINATA_PUBLIC_GATEWAY@, MEDICI_GATEWAY@),
{
    reveal_strlit("https://gateway.pinata.cloud/");
    reveal_strlit("https://medici-test.mypinata.cloud/");
    let f = PINATA_PUBLIC_GATEWAY@;
    let t = MEDICI_GATEWAY@;
    assert(f[0] == 'h' && t[0] == 'h');
    assert(char_absent_from(f, 'h', 1)) by {
        reveal_with_fuel(char_absent_from, 40);
    }
    assert(char_absent_from(t, 'h', 1)) by {
        reveal_with_fuel(char_absent_from, 40);
    }
    char_absent_from_all(f, 'h', 1);
    char_absent_from_all(t, 'h', 1);
    assert(t[8] != f[8]);
}

/// After a clean replacement the pattern occurs nowhere in the result.
proof fn clean_replacement_removes_pattern(s: Seq<char>, from: Seq<char>, to: Seq<char>)
    requires
        clean_replacement(from, to),
    ensures
        !contains_text(replace_all(s, from, to), from),
    decreases s.len(),
{
    let o = replace_all(s, from, to);
    let m = from.len() as int;
    if s.len() == 0 {
        assert forall|p: int| !occurs_at(o, from, p) by {}
    } else if m <= s.len() && s.take(m) == from {
        let rest = s.skip(m);
        let o2 = replace_all(rest, from, to);
        clean_replacement_removes_pattern(rest, from, to);
        assert(o == to + o2);
        assert forall|p: int| !occurs_at(o, from, p) by {
            if occurs_at(o, from, p) {
                if p == 0 {
                    let k = choose|k: int| 0 <= k < from.len() && k < to.len() && #[trigger] to[k] != from[k];
                    assert(o.subrange(p, p + m)[k] == o[k]);
                } else if p < to.len() {
                    assert(o.subrange(p, p + m)[0] == o[p]);
                    assert(to[p] != from[0]);
                } else {
                    assert(o2.subrange(p - to.len(), p - to.len() + m) =~= o.subrange(p, p + m));
                    assert(occurs_at(o2, from, p - to.len()));
                }
            }
        }
    } else {
        let rest = s.skip(1);
        let o2 = replace_all(rest, from, to);
        clean_replacement_removes_pattern(rest, from, to);
        assert(o == seq![s[0]] + o2);
        assert forall|p: int| !occurs_at(o, from, p) by {
            if occurs_at(o, from, p) {
                if p == 0 {
                    let w = o.subrange(0, m);
                    assert(w == from);
                    assert forall|i: int| 0 <= i < m - 1 implies #[trigger] o2[i] != from[0] by {
                        assert(o2[i] == w[i + 1]);
                        assert(from[i + 1] != from[0]);
                    }
                    replaced_prefix_is_copied(rest, from, to, m - 1);
                    assert(s.take(m) =~= seq![s[0]] + rest.take(m - 1));
                    assert(o.take(m) =~= seq![s[0]] + o2.take(m - 1));
                    assert(o.take(m) =~= w);
                } else {
                    assert(o2.subrange(p - 1, p - 1 + m) =~= o.subrange(p, p + m));
                    assert(occurs_at(o2, from, p - 1));
                }
            }
        }
    }
}

/// A metadata address moved to the dedicated gateway no longer mentions the
/// public gateway.
pub proof fn rewritten_address_leaves_public_gateway(uri: Seq<char>)
    ensures
        !contains_text(replace_all(uri, PINATA_PUBLIC_GATEWAY@, MEDICI_GATEWAY@), PINATA_PUBLIC_GATEWAY@),
{
    gateway_replacement_is_clean();
    clean_replacement_removes_pattern(uri, PINATA_PUBLIC_GATEWAY@, MEDICI_GATEWAY@);
}

/// An address on the public IPFS gateway mentions the public gateway.
proof fn ipfs_prefix_mentions_gateway(uri: Seq<char>)
    ensures
        contains_text(uri, PINATA_IPFS_PREFIX@) ==> contains_text(uri, PINATA_PUBLIC_GATEWAY@),
{
    reveal_strlit("https://gateway.pinata.cloud/ipfs/");
    reveal_strlit("https://gateway.pinata.cloud/");
    let ipfs = PINATA_IPFS_PREFIX@;
    let gw = PINATA_PUBLIC_GATEWAY@;
    assert(ipfs.take(gw.len() as int) =~= gw);
    if contains_text(uri, ipfs) {
        let i = choose|i: int| occurs_at(uri, ipfs, i);
        assert(uri.subrange(i, i + gw.len()) =~= ipfs.take(gw.len() as int));
        assert(occurs_at(uri, gw, i));
    }
}

/// Collections none of which is kept select to nothing.
proof fn selection_of_unkept(cs: Seq<ContractView>)
    requires
        forall|k: int| 0 <= k < cs.len() ==> lyra_mint(#[trigger] cs[k]) is None,
    ensures
        lyra_selection(cs) == Seq::<ContractView>::empty(),
    decreases cs.len(),
{
    if cs.len() > 0 {
        selection_of_unkept(cs.drop_last());
        assert(lyra_mint(cs[cs.len() - 1]) is None);
    }
}

/// Selecting again from a selection keeps nothing: every kept collection's
/// token has been moved off the public gateway.
pub proof fn lyra_selection_is_final(cs: Seq<ContractView>)
    ensures
        lyra_selection(lyra_selection(cs)) == Seq::<ContractView>::empty(),
{
    let sel = lyra_selection(cs);
    lyra_selection_from_input(cs);
    assert forall|k: int| 0 <= k < sel.len() implies lyra_mint(#[trigger] sel[k]) is None by {
        let j = choose|j: int| 0 <= j < cs.len() && lyra_mint(#[trigger] cs[j]) == Some(sel[k]);
        let t = cs[j].2[0];
        let uri = replace_all(t.1, PINATA_PUBLIC_GATEWAY@, MEDICI_GATEWAY@);
        assert(sel[k].2[0].1 == uri);
        rewritten_address_leaves_public_gateway(t.1);
        ipfs_prefix_mentions_gateway(uri);
    }
    selection_of_unkept(sel);
}

/// A single collection with tokens is selected exactly when its first
/// token's metadata address contains the public IPFS gateway prefix, however
/// many tokens it has; it is then kept with that token alone, the address
/// moved to the dedicated gateway.
pub proof fn lyra_selection_of_one(c: ContractView)
    requires
        c.2.len() > 0,
    ensures
        contains_text(c.2[0].1, PINATA_IPFS_PREFIX@) ==> lyra_selection(seq![c])
            == seq![(c.0, c.1, seq![(c.2[0].0, replace_all(c.2[0].1, PINATA_PUBLIC_GATEWAY@, MEDICI_GATEWAY@))])],
        !contains_text(c.2[0].1, PINATA_IPFS_PREFIX@) ==> lyra_selection(seq![c]) == Seq::<ContractView>::empty(),
{
    let one = seq![c];
    assert(one.drop_last() =~= Seq::<ContractView>::empty());
    assert(one.last() == c);
    assert(lyra_selection(one.drop_last()) =~= Seq::<ContractView>::empty());
}

/// Selecting from collections followed by one more is selecting from the
/// first ones followed by selecting from the last alone.
pub proof fn lyra_selection_of_pushed(cs: Seq<ContractView>, c: ContractView)
    ensures
        lyra_selection(cs.push(c)) == lyra_selection(cs) + lyra_selection(seq![c]),
{
    let one = seq![c];
    assert(cs.push(c).drop_last() =~= cs);
    assert(one.drop_last() =~= Seq::<ContractView>::empty());
    assert(lyra_selection(one.drop_last()) =~= Seq::<ContractView>::empty());
    match lyra_mint(c) {
        Some(x) => {
            assert(lyra_selection(one) =~= seq![x]);
            assert(lyra_selection(cs.push(c)) =~= lyra_selection(cs) + seq![x]);
        },
        None => {
            assert(lyra_selection(one) =~= Seq::<ContractView>::empty());
            assert(lyra_selection(cs.push(c)) =~= lyra_selection(cs) + Seq::<ContractView>::empty());
        },
    }
}

} // verus!
