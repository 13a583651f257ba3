//! The extension a template name ends in: the text after its last `.`.
use vstd::prelude::*;
use vstd::string::*;

verus! {

/// The text after the last `.` of `name`, or `None` where `name` holds no `.`.
pub open spec fn extension_of(name: Seq<char>) -> Option<Seq<char>>
    decreases name.len(),
{
    if name.len() == 0 {
        None
    } else if name.last() == '.' {
        Some(Seq::empty())
    } else {
        match extension_of(name.drop_last()) {
            Some(rest) => Some(rest.push(name.last())),
            None => None,
        }
    }
}

/// A name has no extension exactly when it holds no `.`.
pub proof fn lemma_extension_absent(name: Seq<char>)
    ensures
        extension_of(name) is None <==> !name.contains('.'),
    decreases name.len(),
{
    if name.len() == 0 {
    } else if name.last() == '.' {
        assert(name[name.len() - 1] == '.');
    } else {
        let front = name.drop_last();
        lemma_extension_absent(front);
        if name.contains('.') {
            let i = choose|i: int| 0 <= i < name.len() && name[i] == '.';
            assert(front[i] == '.');
        }
        if front.contains('.') {
            let i = choose|i: int| 0 <= i < front.len() && front[i] == '.';
            assert(name[i] == '.');
        }
    }
}

/// A name made of a stem, a `.` and a dot-free tail has that tail as its
/// extension, whatever the stem holds.
pub proof fn lemma_extension_of_dotted(stem: Seq<char>, tail: Seq<char>)
    requires
        !tail.contains('.'),
    ensures
        extension_of(stem.push('.') + tail) == Some(tail),
    decreases tail.len(),
{
    let name = stem.push('.') + tail;
    if tail.len() == 0 {
        assert(name.last() == '.');
        assert(tail =~= Seq::<char>::empty());
    } else {
        let front = tail.drop_last();
        assert(tail[tail.len() - 1] != '.');
        assert(name.last() == tail.last());
        assert(name.drop_last() =~= stem.push('.') + front);
        assert(!front.contains('.')) by {
            if front.contains('.') {
                let i = choose|i: int| 0 <= i < front.len() && front[i] == '.';
                assert(tail[i] == '.');
            }
        }
        lemma_extension_of_dotted(stem, front);
        assert(front.push(tail.last()) =~= tail);
    }
}

/// An extension holds no `.`, and the name is a stem, a `.` and the extension.
pub proof fn lemma_extension_splits(name: Seq<char>)
    requires
        extension_of(name) is Some,
    ensures
        !extension_of(name).unwrap().contains('.'),
        extension_of(name).unwrap().len() < name.len(),
        name =~= name.subrange(0, name.len() - extension_of(name).unwrap().len() - 1).push('.')
            + extension_of(name).unwrap(),
    decreases name.len(),
{
    if name.len() == 0 {
    } else if name.last() == '.' {
        let tail = Seq::<char>::empty();
        assert(name.subrange(0, name.len() - 1).push('.') + tail =~= name);
    } else {
        let front = name.drop_last();
        lemma_extension_splits(front);
        let rest = extension_of(front).unwrap();
        let tail = rest.push(name.last());
        assert(!tail.contains('.')) by {
            if tail.contains('.') {
                let i = choose|i: int| 0 <= i < tail.len() && tail[i] == '.';
                if i < rest.len() {
                    assert(rest[i] == '.');
                }
            }
        }
        let cut = name.len() - tail.len() - 1;
        let stem = front.subrange(0, cut);
        assert(stem =~= name.subrange(0, cut));
        assert(front == stem.push('.') + rest);
        assert(name =~= front.push(name.last()));
        assert(stem.push('.') + tail =~= (stem.push('.') + rest).push(name.last()));
    }
}

/// The extension of `name`: the text after its last `.`, which may be empty.
pub fn template_extension<'a>(name: &'a str) -> (ext: Option<&'a str>)
    ensures
        match ext {
            Some(e) => extension_of(name@) == Some(e@),
            None => extension_of(name@) is None,
        },
{
    let len: usize = name.unicode_len();
    let mut i: usize = len;
    while i > 0
        invariant
            len == name@.len(),
            i <= len,
            forall|j: int| i <= j < len ==> name@[j] != '.',
        decreases i,
    {
        if name.get_char(i - 1) == '.' {
            let tail = name.substring_char(i, len);
            proof {
                let stem = name@.subrange(0, i - 1);
                assert(stem.push('.') + tail@ =~= name@);
                lemma_extension_of_dotted(stem, tail@);
            }
            return Some(tail);
        }
        i = i - 1;
    }
    proof {
        lemma_extension_absent(name@);
    }
    None
}

} // verus!
