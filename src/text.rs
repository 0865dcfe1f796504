use vstd::prelude::*;

verus! {

/// A line with its leading and trailing white space removed.
pub uninterp spec fn trim_of(s: Seq<char>) -> Seq<char>;

/// Relies on `str::trim`: the result depends on the characters of `s` alone.
#[verifier::external_body]
pub(crate) fn trimmed(s: &str) -> (r: String)
    ensures
        r@ == trim_of(s@),
{
    s.trim().to_string()
}

/// Relies on `str::split_once`: splits at the first occurrence of `sep`,
/// which neither part but the tail can hold before it.
#[verifier::external_body]
pub(crate) fn split_at_first(s: &str, sep: char) -> (r: Option<(&str, &str)>)
    ensures
        match r {
            Some((head, tail)) => s@ == head@ + seq![sep] + tail@ && !head@.contains(sep),
            None => !s@.contains(sep),
        },
{
    s.split_once(sep)
}

/// The text of `s` before its first space, or all of `s` without one.
pub open spec fn first_field(s: Seq<char>) -> Seq<char>
    decreases s.len(),
{
    if s.len() == 0 {
        s
    } else if s[0] == ' ' {
        Seq::empty()
    } else {
        seq![s[0]] + first_field(s.drop_first())
    }
}

proof fn lemma_first_field_of_split(head: Seq<char>, tail: Seq<char>)
    requires
        !head.contains(' '),
    ensures
        first_field(head + seq![' '] + tail) == head,
    decreases head.len(),
{
    let s = head + seq![' '] + tail;
    if head.len() == 0 {
        assert(s[0] == ' ');
    } else {
        assert(!head.drop_first().contains(' ')) by {
            if head.drop_first().contains(' ') {
                let k = choose|k: int| 0 <= k < head.drop_first().len() && head.drop_first()[k] == ' ';
                assert(head[k + 1] == ' ');
            }
        }
        lemma_first_field_of_split(head.drop_first(), tail);
        assert(s.drop_first() =~= head.drop_first() + seq![' '] + tail);
        assert(head[0] != ' ');
        assert(seq![head[0]] + head.drop_first() =~= head);
    }
}

proof fn lemma_first_field_without_space(s: Seq<char>)
    requires
        !s.contains(' '),
    ensures
        first_field(s) == s,
    decreases s.len(),
{
    if s.len() > 0 {
        assert(!s.drop_first().contains(' ')) by {
            if s.drop_first().contains(' ') {
                let k = choose|k: int| 0 <= k < s.drop_first().len() && s.drop_first()[k] == ' ';
                assert(s[k + 1] == ' ');
            }
        }
        lemma_first_field_without_space(s.drop_first());
        assert(s[0] != ' ');
        assert(seq![s[0]] + s.drop_first() =~= s);
    }
}

/// The session address carried by an SSH client description
/// (`"<address> <port> <port>"`): its first space-separated field.
pub fn address_from_ssh_client(ssh_client: &str) -> (r: String)
    ensures
        r@ == first_field(ssh_client@),
{
    match split_at_first(ssh_client, ' ') {
        Some((head, tail)) => {
            proof {
                lemma_first_field_of_split(head@, tail@);
            }
            String::from_str(head)
        },
        None => {
            proof {
                lemma_first_field_without_space(ssh_client@);
            }
            String::from_str(ssh_client)
        },
    }
}

} // verus!
