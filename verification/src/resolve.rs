//! The token resolver: it turns an ordered list of caller tokens into a
//! deduplicated, ordered list of host names. Each token is lowercased; a
//! preset token unions in the preset's expansion in the preset's own
//! order, a site token appends that site's host name, and anything else
//! is ignored. Duplicates are collapsed to the first occurrence.

use vstd::prelude::*;
use crate::catalog::{
    add_website_based_on_preset,
    is_preset,
    is_site,
    lower_chars,
    preset_hosts,
    site_host,
    site_lookup,
    token_matches,
};

verus! {

/// One host name unioned into the accumulated list: appended at the end
/// unless it is already present.
pub open spec fn add_host(acc: Seq<Seq<char>>, host: Seq<char>) -> Seq<Seq<char>> {
    if acc.contains(host) {
        acc
    } else {
        acc.push(host)
    }
}

/// A list of host names unioned into the accumulated list, in order.
pub open spec fn add_all(acc: Seq<Seq<char>>, hosts: Seq<Seq<char>>) -> Seq<Seq<char>>
    decreases hosts.len(),
{
    if hosts.len() == 0 {
        acc
    } else {
        add_all(add_host(acc, hosts[0]), hosts.drop_first())
    }
}

/// One token resolved against the accumulated list: a preset name unions
/// in its expansion, a site identifier unions in its host name, and an
/// unrecognized token changes nothing. Matching ignores case.
pub open spec fn resolve_token(acc: Seq<Seq<char>>, token: Seq<char>) -> Seq<Seq<char>> {
    let t = lower_chars(token);
    if preset_hosts(t) is Some {
        add_all(acc, preset_hosts(t)->0)
    } else if site_host(t) is Some {
        add_host(acc, site_host(t)->0)
    } else {
        acc
    }
}

/// The resolved block set of a token list: every token folded into an
/// initially empty list, in input order.
pub open spec fn resolve_spec(tokens: Seq<Seq<char>>) -> Seq<Seq<char>>
    decreases tokens.len(),
{
    if tokens.len() == 0 {
        Seq::empty()
    } else {
        resolve_token(resolve_spec(tokens.drop_last()), tokens.last())
    }
}

/// Whether the accumulated list already holds this host name.
fn contains_host(acc: &Vec<String>, host: &String) -> (r: bool)
    ensures
        r == acc.deep_view().contains(host@),
{
    let mut i: usize = 0;
    while i < acc.len()
        invariant
            i <= acc.len(),
            forall|j: int| 0 <= j < i ==> acc.deep_view()[j] != host@,
        decreases acc.len() - i,
    {
        if acc[i].eq(host) {
            proof {
                assert(acc.deep_view()[i as int] == host@);
            }
            return true;
        }
        i += 1;
    }
    false
}

/// Appends the host name unless it is already present.
fn push_unique(acc: &mut Vec<String>, host: String)
    ensures
        final(acc).deep_view() == add_host(old(acc).deep_view(), host@),
{
    if !contains_host(acc, &host) {
        acc.push(host);
        proof {
            assert(acc.deep_view() =~= old(acc).deep_view().push(host@));
        }
    }
}

/// `add_all` distributes over appending one more host at the end.
proof fn lemma_add_all_push(acc: Seq<Seq<char>>, hosts: Seq<Seq<char>>, host: Seq<char>)
    ensures
        add_all(acc, hosts.push(host)) == add_host(add_all(acc, hosts), host),
    decreases hosts.len(),
{
    let pushed = hosts.push(host);
    assert(pushed.len() == hosts.len() + 1);
    assert(pushed[0] == if hosts.len() == 0 { host } else { hosts[0] });
    assert(add_all(acc, pushed) == add_all(add_host(acc, pushed[0]), pushed.drop_first()));
    if hosts.len() == 0 {
        assert(pushed.drop_first() =~= Seq::<Seq<char>>::empty());
        assert(add_all(add_host(acc, host), pushed.drop_first()) == add_host(acc, host));
    } else {
        assert(pushed.drop_first() =~= hosts.drop_first().push(host));
        lemma_add_all_push(add_host(acc, hosts[0]), hosts.drop_first(), host);
        assert(add_all(acc, hosts) == add_all(add_host(acc, hosts[0]), hosts.drop_first()));
    }
}

/// Unions a whole host-name list into the accumulated list, in order.
fn push_all_unique(acc: &mut Vec<String>, hosts: &Vec<String>)
    ensures
        final(acc).deep_view() == add_all(old(acc).deep_view(), hosts.deep_view()),
{
    let ghost all = hosts.deep_view();
    let n = hosts.len();
    let mut i: usize = 0;
    while i < n
        invariant
            i <= n,
            n == hosts.len(),
            all == hosts.deep_view(),
            all.len() == n,
            acc.deep_view() == add_all(old(acc).deep_view(), all.take(i as int)),
        decreases n - i,
    {
        let host = hosts[i].clone();
        proof {
            assert(host@ == all[i as int]);
            assert(all.take(i as int + 1) =~= all.take(i as int).push(all[i as int]));
            lemma_add_all_push(old(acc).deep_view(), all.take(i as int), all[i as int]);
        }
        push_unique(acc, host);
        i += 1;
    }
    proof {
        assert(all.take(n as int) =~= all);
    }
}

/// Resolves one token into the accumulated list.
fn resolve_one(acc: &mut Vec<String>, token: &String)
    ensures
        final(acc).deep_view() == resolve_token(old(acc).deep_view(), token@),
{
    let t = token.as_str();
    let preset_match = token_matches(t, "all") || token_matches(t, "studying")
        || token_matches(t, "studying_yt") || token_matches(t, "coding")
        || token_matches(t, "coding_yt");
    if preset_match {
        let hosts = add_website_based_on_preset(token);
        push_all_unique(acc, &hosts);
    } else {
        match site_lookup(token) {
            Some(host) => {
                push_unique(acc, host);
            },
            None => {},
        }
    }
}

/// Resolves caller tokens into the ordered, deduplicated list of host
/// names to block. Tokens are matched case-insensitively; a preset token
/// unions in the preset's expansion, a site token its host name, and an
/// unrecognized token is ignored rather than rejected.
pub fn match_args(arguments: &Vec<String>) -> (r: Vec<String>)
    ensures
        r.deep_view() == resolve_spec(arguments.deep_view()),
{
    let ghost tokens = arguments.deep_view();
    let mut out: Vec<String> = Vec::new();
    let n = arguments.len();
    let mut i: usize = 0;
    while i < n
        invariant
            i <= n,
            n == arguments.len(),
            tokens == arguments.deep_view(),
            tokens.len() == n,
            out.deep_view() == resolve_spec(tokens.take(i as int)),
        decreases n - i,
    {
        proof {
            assert(tokens.take(i as int + 1).drop_last() =~= tokens.take(i as int));
            assert(tokens.take(i as int + 1).last() == tokens[i as int]);
            assert(arguments[i as int]@ == tokens[i as int]);
        }
        resolve_one(&mut out, &arguments[i]);
        i += 1;
    }
    proof {
        assert(tokens.take(n as int) =~= tokens);
    }
    out
}

/// A token list holding only unrecognized tokens resolves to nothing.
pub proof fn lemma_resolve_unrecognized(tokens: Seq<Seq<char>>)
    requires
        forall|i: int|
            0 <= i < tokens.len() ==> !is_preset(lower_chars(#[trigger] tokens[i]))
                && !is_site(lower_chars(tokens[i])),
    ensures
        resolve_spec(tokens) == Seq::<Seq<char>>::empty(),
    decreases tokens.len(),
{
    if tokens.len() > 0 {
        assert(tokens.last() == tokens[tokens.len() - 1]);
        assert(forall|i: int|
            0 <= i < tokens.drop_last().len() ==> #[trigger] tokens.drop_last()[i] == tokens[i]);
        lemma_resolve_unrecognized(tokens.drop_last());
    }
}

/// Resolution ignores case: token lists that agree after lowercasing
/// resolve to the same block set, whatever their original casing.
pub proof fn lemma_resolve_case_insensitive(a: Seq<Seq<char>>, b: Seq<Seq<char>>)
    requires
        a.len() == b.len(),
        forall|i: int| 0 <= i < a.len() ==> lower_chars(#[trigger] a[i]) == lower_chars(b[i]),
    ensures
        resolve_spec(a) == resolve_spec(b),
    decreases a.len(),
{
    if a.len() > 0 {
        assert(forall|i: int|
            0 <= i < a.drop_last().len() ==> #[trigger] a.drop_last()[i] == a[i]
                && b.drop_last()[i] == b[i]);
        lemma_resolve_case_insensitive(a.drop_last(), b.drop_last());
        assert(lower_chars(a.last()) == lower_chars(b.last()));
    } else {
        assert(a =~= Seq::<Seq<char>>::empty());
        assert(b =~= Seq::<Seq<char>>::empty());
    }
}

/// No host name appears twice in the list.
pub open spec fn no_duplicate_hosts(hosts: Seq<Seq<char>>) -> bool {
    forall|i: int, j: int| 0 <= i < j < hosts.len() ==> hosts[i] != hosts[j]
}

proof fn lemma_add_host_no_duplicates(acc: Seq<Seq<char>>, host: Seq<char>)
    requires
        no_duplicate_hosts(acc),
    ensures
        no_duplicate_hosts(add_host(acc, host)),
{
    if !acc.contains(host) {
        let r = acc.push(host);
        assert forall|i: int, j: int| 0 <= i < j < r.len() implies r[i] != r[j] by {
            if j == r.len() - 1 {
                if acc[i] == host {
                    assert(acc.contains(host));
                }
            }
        }
    }
}

proof fn lemma_add_all_no_duplicates(acc: Seq<Seq<char>>, hosts: Seq<Seq<char>>)
    requires
        no_duplicate_hosts(acc),
    ensures
        no_duplicate_hosts(add_all(acc, hosts)),
    decreases hosts.len(),
{
    if hosts.len() > 0 {
        lemma_add_host_no_duplicates(acc, hosts[0]);
        lemma_add_all_no_duplicates(add_host(acc, hosts[0]), hosts.drop_first());
    }
}

/// The resolved block set never lists a host name twice, however often
/// tokens repeat or presets overlap.
pub proof fn lemma_resolve_no_duplicates(tokens: Seq<Seq<char>>)
    ensures
        no_duplicate_hosts(resolve_spec(tokens)),
    decreases tokens.len(),
{
    if tokens.len() > 0 {
        lemma_resolve_no_duplicates(tokens.drop_last());
        let acc = resolve_spec(tokens.drop_last());
        let t = lower_chars(tokens.last());
        if preset_hosts(t) is Some {
            lemma_add_all_no_duplicates(acc, preset_hosts(t)->0);
        } else if site_host(t) is Some {
            lemma_add_host_no_duplicates(acc, site_host(t)->0);
        }
    }
}

/// A site token appended to a token list adds exactly that site's host
/// name to the resolved set, and adds nothing when the host name is
/// already present: a preset and explicit site tokens are additive, with
/// duplicates collapsed.
pub proof fn lemma_resolve_append_site(tokens: Seq<Seq<char>>, token: Seq<char>)
    requires
        is_site(lower_chars(token)),
        !is_preset(lower_chars(token)),
    ensures
        resolve_spec(tokens.push(token)) == add_host(
            resolve_spec(tokens),
            site_host(lower_chars(token))->0,
        ),
{
    assert(tokens.push(token).drop_last() =~= tokens);
    assert(tokens.push(token).last() == token);
}

} // verus!
