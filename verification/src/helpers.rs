//! Rendering an error together with the chain of its causes.

use vstd::prelude::*;

verus! {

/// The error type that the application's fallible steps report.
#[verifier::external_type_specification]
#[verifier::external_body]
pub struct ExAnyhowError(anyhow::Error);

/// `n` tab characters.
pub open spec fn tabs(n: nat) -> Seq<char> {
    Seq::new(n, |i: int| '\t')
}

/// The rendering of a chain of error messages: one line per message, the
/// `i`-th indented by `i` tabs.
pub open spec fn unrolled_chain(messages: Seq<Seq<char>>) -> Seq<char>
    decreases messages.len(),
{
    if messages.len() == 0 {
        Seq::empty()
    } else {
        unrolled_chain(messages.drop_last()) + tabs((messages.len() - 1) as nat) + messages.last()
            + seq!['\n']
    }
}

/// The messages of `e` and of each of its causes, outermost first, each as its
/// `Display` form. Calls `anyhow::Error::chain` and `ToString::to_string` on
/// each link. The chain starts with `e` itself, so there is at least one
/// message; what the messages say is the errors' own text, which this
/// contract leaves open.
#[verifier::external_body]
fn error_chain_messages(e: &anyhow::Error) -> (res: Vec<String>)
    ensures
        res@.len() >= 1,
{
    e.chain().map(|c| c.to_string()).collect()
}

/// Renders a chain of error messages: one line per message, the `i`-th
/// preceded by `i` tabs.
pub fn format_error_chain(messages: &Vec<String>) -> (res: String)
    ensures
        res@ == unrolled_chain(messages@.map_values(|m: String| m@)),
{
    let ghost views = messages@.map_values(|m: String| m@);
    let mut res = String::new();
    let n = messages.len();
    for i in 0..n
        invariant
            n == messages@.len(),
            views == messages@.map_values(|m: String| m@),
            res@ == unrolled_chain(views.take(i as int)),
    {
        let mut j: usize = 0;
        while j < i
            invariant
                j <= i,
                i < n,
                n == messages@.len(),
                views == messages@.map_values(|m: String| m@),
                res@ == unrolled_chain(views.take(i as int)) + tabs(j as nat),
            decreases i - j,
        {
            proof {
                reveal_strlit("\t");
            }
            res.append("\t");
            assert(tabs(j as nat) + seq!['\t'] =~= tabs((j + 1) as nat));
            j = j + 1;
        }
        let ghost before = res@;
        res.append(messages[i].as_str());
        proof {
            reveal_strlit("\n");
        }
        res.append("\n");
        proof {
            let ti = views.take(i + 1);
            assert(ti.drop_last() =~= views.take(i as int));
            assert(ti.last() == messages@[i as int]@);
            assert(ti.len() - 1 == i);
            assert(res@ =~= unrolled_chain(views.take(i as int)) + tabs(i as nat) + ti.last() + seq!['\n']);
        }
    }
    assert(views.take(n as int) =~= views);
    res
}

/// Renders an error and its causes, one per line, the `i`-th cause indented
/// by `i` tabs. The result is the rendering of the error's chain of messages.
pub fn unroll_anyhow_result(e: anyhow::Error) -> (res: String)
    ensures
        exists|messages: Seq<Seq<char>>| messages.len() >= 1 && res@ == unrolled_chain(messages),
{
    let messages = error_chain_messages(&e);
    let res = format_error_chain(&messages);
    assert(messages@.map_values(|m: String| m@).len() >= 1);
    res
}

/// A rendered chain has one line break per message.
pub proof fn lemma_unrolled_line_count(messages: Seq<Seq<char>>)
    requires
        forall|i: int| 0 <= i < messages.len() ==> !(#[trigger] messages[i]).contains('\n'),
    ensures
        unrolled_chain(messages).filter(|c: char| c == '\n').len() == messages.len(),
    decreases messages.len(),
{
    if messages.len() > 0 {
        let init = messages.drop_last();
        lemma_unrolled_line_count(init);
        let f = |c: char| c == '\n';
        let t = tabs((messages.len() - 1) as nat);
        let m = messages.last();
        Seq::filter_distributes_over_add(unrolled_chain(init), t, f);
        Seq::filter_distributes_over_add(unrolled_chain(init) + t, m, f);
        Seq::filter_distributes_over_add(unrolled_chain(init) + t + m, seq!['\n'], f);
        assert(t.filter(f) =~= Seq::<char>::empty()) by {
            lemma_filter_none(t, f);
        }
        assert(m.filter(f) =~= Seq::<char>::empty()) by {
            lemma_filter_none(m, f);
        }
        reveal_with_fuel(Seq::filter, 2);
        assert(seq!['\n'].filter(f) =~= seq!['\n']) by {
            assert(seq!['\n'].drop_last() =~= Seq::<char>::empty());
        }
    }
}

/// Filtering keeps nothing of a sequence in which no element passes.
proof fn lemma_filter_none(s: Seq<char>, f: spec_fn(char) -> bool)
    requires
        forall|i: int| 0 <= i < s.len() ==> !f(#[trigger] s[i]),
    ensures
        s.filter(f) =~= Seq::<char>::empty(),
    decreases s.len(),
{
    reveal_with_fuel(Seq::filter, 1);
    if s.len() > 0 {
        lemma_filter_none(s.drop_last(), f);
    }
}

} // verus!
