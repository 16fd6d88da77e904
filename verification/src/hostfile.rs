//! The host-file editor: `apply` merges the resolved block set into the
//! current file content by appending one loopback line per host name, and
//! `restore` returns the snapshot captured before the apply, verbatim.
//! Both are pure string transforms; reading and writing the real file is
//! the caller's business. The snapshot is the sole mechanism of
//! restoration, never a static template, so that entries unrelated to
//! this tool survive a session.

use vstd::prelude::*;

verus! {

/// The line appended for one blocked host: the fixed loopback address, a
/// tab column separator, the host name, and a line break.
pub open spec fn block_line(host: Seq<char>) -> Seq<char> {
    "127.0.0.1\t"@ + host + "\n"@
}

/// The lines appended for a whole block set, in its order.
pub open spec fn block_lines(hosts: Seq<Seq<char>>) -> Seq<char>
    decreases hosts.len(),
{
    if hosts.len() == 0 {
        Seq::empty()
    } else {
        block_line(hosts[0]) + block_lines(hosts.drop_first())
    }
}

/// What `apply` returns: the current content with the block lines
/// appended. Nothing is removed or merged, so applying twice without a
/// restore in between appends the lines twice.
pub open spec fn apply_spec(content: Seq<char>, hosts: Seq<Seq<char>>) -> Seq<char> {
    content + block_lines(hosts)
}

/// What `restore` returns: the snapshot, byte for byte.
pub open spec fn restore_spec(snapshot: Seq<char>) -> Seq<char> {
    snapshot
}

/// `block_lines` distributes over appending one more host at the end.
proof fn lemma_block_lines_push(hosts: Seq<Seq<char>>, host: Seq<char>)
    ensures
        block_lines(hosts.push(host)) == block_lines(hosts) + block_line(host),
    decreases hosts.len(),
{
    let pushed = hosts.push(host);
    if hosts.len() == 0 {
        assert(pushed[0] == host);
        assert(pushed.drop_first() =~= Seq::<Seq<char>>::empty());
        assert(block_lines(pushed) == block_line(host) + block_lines(Seq::<Seq<char>>::empty()));
        assert(block_lines(pushed) =~= block_line(host));
        assert(block_lines(hosts) + block_line(host) =~= block_line(host));
    } else {
        assert(pushed[0] == hosts[0]);
        assert(pushed.drop_first() =~= hosts.drop_first().push(host));
        lemma_block_lines_push(hosts.drop_first(), host);
        assert(block_line(hosts[0]) + (block_lines(hosts.drop_first()) + block_line(host))
            =~= (block_line(hosts[0]) + block_lines(hosts.drop_first())) + block_line(host));
    }
}

/// Appends, for each host name in the block set in its order, one line
/// mapping the loopback address to that host name. An empty block set
/// returns the content unchanged.
pub fn apply(current_content: &String, block_set: &Vec<String>) -> (r: String)
    ensures
        r@ == apply_spec(current_content@, block_set.deep_view()),
        block_set.deep_view().len() == 0 ==> r@ == current_content@,
{
    let ghost hosts = block_set.deep_view();
    let mut out = current_content.clone();
    let n = block_set.len();
    let mut i: usize = 0;
    while i < n
        invariant
            i <= n,
            n == block_set.len(),
            hosts == block_set.deep_view(),
            hosts.len() == n,
            out@ == current_content@ + block_lines(hosts.take(i as int)),
        decreases n - i,
    {
        proof {
            assert(hosts.take(i as int + 1) =~= hosts.take(i as int).push(hosts[i as int]));
            lemma_block_lines_push(hosts.take(i as int), hosts[i as int]);
            assert(block_set[i as int]@ == hosts[i as int]);
        }
        out.append("127.0.0.1\t");
        out.append(block_set[i].as_str());
        out.append("\n");
        proof {
            assert(out@ =~= current_content@ + block_lines(hosts.take(i as int + 1)));
        }
        i += 1;
    }
    proof {
        assert(hosts.take(n as int) =~= hosts);
        assert(block_lines(Seq::<Seq<char>>::empty()) == Seq::<char>::empty());
        if hosts.len() == 0 {
            assert(out@ =~= current_content@);
        }
    }
    out
}

/// Returns the snapshot verbatim: the only way back to the pre-session
/// file content.
pub fn restore(snapshot: &String) -> (r: String)
    ensures
        r@ == restore_spec(snapshot@),
        r@ == snapshot@,
{
    snapshot.clone()
}

/// The round-trip law: the snapshot taken from content before an apply,
/// handed to restore, yields that content exactly, byte for byte, for
/// any content and any block set. The applied content itself need not be
/// invertible; the snapshot alone is the way back. Applying only ever
/// appends: the original content stays in place as a prefix.
pub proof fn lemma_apply_restore_round_trip(content: Seq<char>, hosts: Seq<Seq<char>>)
    ensures
        restore_spec(content) == content,
        apply_spec(content, hosts).take(content.len() as int) == content,
{
    assert(apply_spec(content, hosts).take(content.len() as int) =~= content);
}

/// The no-op law: applying an empty block set changes nothing.
pub proof fn lemma_apply_empty(content: Seq<char>)
    ensures
        apply_spec(content, Seq::<Seq<char>>::empty()) == content,
{
    assert(apply_spec(content, Seq::<Seq<char>>::empty()) =~= content);
}

} // verus!
