use vstd::prelude::*;

verus! {

/// The texts of a list of messages.
pub open spec fn texts(messages: Seq<String>) -> Seq<Seq<char>> {
    Seq::new(messages.len(), |i: int| messages[i]@)
}

/// One paragraph for each source, the nearest first.
pub open spec fn sources_text(sources: Seq<Seq<char>>) -> Seq<char>
    decreases sources.len(),
{
    if sources.len() == 0 {
        Seq::empty()
    } else {
        sources_text(sources.drop_last()) + "Caused By:\n\t"@ + sources.last() + "\n"@
    }
}

/// An error's message, an empty line, and then the chain of its sources.
pub open spec fn error_chain_text(message: Seq<char>, sources: Seq<Seq<char>>) -> Seq<char> {
    message + "\n\n"@ + sources_text(sources)
}

/// Renders an error for diagnostics: its own message first, then what caused
/// it, then what caused that, down to the root.
pub fn error_chain_fmt(message: &str, sources: &Vec<String>) -> (r: String)
    ensures
        r@ == error_chain_text(message@, texts(sources@)),
{
    let mut r = message.to_string();
    r.append("\n\n");
    let mut i: usize = 0;
    while i < sources.len()
        invariant
            i <= sources.len(),
            r@ == error_chain_text(message@, texts(sources@).take(i as int)),
        decreases sources.len() - i,
    {
        proof {
            let done = texts(sources@).take(i as int);
            let next = texts(sources@).take(i + 1);
            assert(next.drop_last() =~= done);
            assert(next.last() == sources@[i as int]@);
        }
        r.append("Caused By:\n\t");
        r.append(sources[i].as_str());
        r.append("\n");
        i = i + 1;
    }
    proof {
        assert(texts(sources@).take(sources.len() as int) =~= texts(sources@));
    }
    r
}

/// A copy of a chain of messages from the one at `start` on.
pub fn copy_chain_from(chain: &Vec<String>, start: usize) -> (r: Vec<String>)
    requires
        start <= chain.len(),
    ensures
        texts(r@) == texts(chain@).skip(start as int),
{
    let mut r: Vec<String> = Vec::new();
    let mut i: usize = start;
    while i < chain.len()
        invariant
            start <= i <= chain.len(),
            r@.len() == i - start,
            texts(r@) == texts(chain@).subrange(start as int, i as int),
        decreases chain.len() - i,
    {
        let ghost before = r@;
        r.push(chain[i].clone());
        proof {
            assert forall|j: int| 0 <= j < i + 1 - start implies texts(r@)[j] == texts(chain@)[start
                + j] by {
                if j < i - start {
                    assert(texts(before)[j] == texts(chain@).subrange(start as int, i as int)[j]);
                }
            }
            assert(texts(r@) =~= texts(chain@).subrange(start as int, i + 1));
        }
        i = i + 1;
    }
    proof {
        assert(texts(chain@).subrange(start as int, chain.len() as int) =~= texts(chain@).skip(
            start as int,
        ));
    }
    r
}

/// A chain of one message.
pub fn chain_of(message: &str) -> (r: Vec<String>)
    ensures
        texts(r@) == seq![message@],
{
    let mut r: Vec<String> = Vec::new();
    r.push(message.to_string());
    proof {
        assert(texts(r@) =~= seq![message@]);
    }
    r
}

/// The chain with one more message put in front of it.
pub fn with_context(message: &str, chain: Vec<String>) -> (r: Vec<String>)
    ensures
        texts(r@) == seq![message@] + texts(chain@),
{
    let mut r = chain;
    r.insert(0, message.to_string());
    proof {
        assert(texts(r@) =~= seq![message@] + texts(chain@));
    }
    r
}

} // verus!
