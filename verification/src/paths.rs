//! Paths as ordered component lists, and the file-name/extension arithmetic
//! that destination renames rely on.

use vstd::pervasive::VecAdditionalExecFns;
use vstd::prelude::*;
use vstd::string::StrSliceExecFns;
use vstd::string::StringExecFns;

verus! {

/// The abstract value of a path: the views of its components, in order.
pub open spec fn path_view(components: Seq<String>) -> Seq<Seq<char>> {
    components.map_values(|s: String| s@)
}

/// A file-system path, held as its ordered list of name components.
pub struct AssetPath {
    pub components: Vec<String>,
}

impl View for AssetPath {
    type V = Seq<Seq<char>>;

    open spec fn view(&self) -> Seq<Seq<char>> {
        path_view(self.components@)
    }
}

impl AssetPath {
    /// The empty path, extended one component at a time.
    pub fn new() -> (r: AssetPath)
        ensures
            r@ == Seq::<Seq<char>>::empty(),
    {
        let r = AssetPath { components: Vec::new() };
        proof {
            assert(r@ =~= Seq::<Seq<char>>::empty());
        }
        r
    }

    pub fn len(&self) -> (n: usize)
        ensures
            n == self@.len(),
    {
        self.components.len()
    }

    pub fn get(&self, i: usize) -> (r: &String)
        requires
            i < self@.len(),
        ensures
            r@ == self@[i as int],
    {
        &self.components[i]
    }

    pub fn push(&mut self, component: String)
        ensures
            final(self)@ == old(self)@.push(component@),
    {
        let ghost cv = component@;
        self.components.push(component);
        proof {
            assert(self@ =~= old(self)@.push(cv));
        }
    }

    /// Replace the file-name component, leaving the directory part alone.
    pub fn set_last(&mut self, component: String)
        requires
            old(self)@.len() > 0,
        ensures
            final(self)@ == old(self)@.update(old(self)@.len() - 1, component@),
    {
        let ghost cv = component@;
        let n = self.components.len();
        self.components.set(n - 1, component);
        proof {
            assert(self@ =~= old(self)@.update(old(self)@.len() - 1, cv));
        }
    }

    /// A copy with the same components.
    pub fn duplicate(&self) -> (r: AssetPath)
        ensures
            r@ == self@,
    {
        let mut components: Vec<String> = Vec::new();
        let n = self.components.len();
        let mut i: usize = 0;
        while i < n
            invariant
                i <= n,
                n == self.components@.len(),
                components@.len() == i,
                forall|k: int| 0 <= k < i ==> components@[k] == self.components@[k],
            decreases n - i,
        {
            components.push(self.components[i].clone());
            i = i + 1;
        }
        let r = AssetPath { components };
        proof {
            assert(r.components@ =~= self.components@);
        }
        r
    }
}

/// Index of the last `.` in a file name, or a negative sentinel if none.
pub open spec fn spec_last_dot(name: Seq<char>) -> int
    decreases name.len(),
{
    if name.len() == 0 {
        -1
    } else if name.last() == '.' {
        name.len() - 1
    } else {
        spec_last_dot(name.drop_last())
    }
}

/// The extension of a file name: what follows the final `.`, unless the name
/// has no `.` at all or only a leading one.
pub open spec fn spec_extension(name: Seq<char>) -> Option<Seq<char>> {
    let i = spec_last_dot(name);
    if i <= 0 {
        None
    } else {
        Some(name.skip(i + 1))
    }
}

/// The name with its extension replaced, or added when it has none: what
/// precedes the final `.` (the whole name if the `.` is absent or leading),
/// then `.`, then `ext`.
pub open spec fn spec_with_extension(name: Seq<char>, ext: Seq<char>) -> Seq<char> {
    let i = spec_last_dot(name);
    if i <= 0 {
        name + "."@ + ext
    } else {
        name.take(i) + "."@ + ext
    }
}

/// The position of the last `.` in `name`, if any.
pub fn last_dot_index(name: &str) -> (r: Option<usize>)
    ensures
        match r {
            Some(i) => spec_last_dot(name@) == i as int && i < name@.len(),
            None => spec_last_dot(name@) == -1,
        },
{
    let n = name.unicode_len();
    let mut r: Option<usize> = None;
    let mut i: usize = 0;
    while i < n
        invariant
            i <= n,
            n == name@.len(),
            match r {
                Some(j) => spec_last_dot(name@.take(i as int)) == j as int && j < i,
                None => spec_last_dot(name@.take(i as int)) == -1,
            },
        decreases n - i,
    {
        let c = name.get_char(i);
        proof {
            assert(name@.take(i + 1).drop_last() =~= name@.take(i as int));
            assert(name@.take(i + 1).last() == name@[i as int]);
        }
        if c == '.' {
            r = Some(i);
        }
        i = i + 1;
    }
    proof {
        assert(name@.take(n as int) =~= name@);
    }
    r
}

/// The extension of `name`, as the rename rule reads it.
pub fn extension_of(name: &str) -> (r: Option<String>)
    ensures
        match r {
            Some(e) => spec_extension(name@) == Some(e@),
            None => spec_extension(name@) is None,
        },
{
    match last_dot_index(name) {
        None => None,
        Some(i) => {
            if i == 0 {
                None
            } else {
                let n = name.unicode_len();
                let e = name.substring_char(i + 1, n);
                proof {
                    assert(e@ =~= name@.skip(i + 1));
                }
                Some(e.to_owned())
            }
        },
    }
}

/// `name` with its extension replaced by `ext`, or `ext` appended after a `.`
/// when `name` has no extension.
pub fn with_extension(name: &str, ext: &str) -> (r: String)
    ensures
        r@ == spec_with_extension(name@, ext@),
{
    let stem = match last_dot_index(name) {
        None => name,
        Some(i) => {
            if i == 0 {
                name
            } else {
                let s = name.substring_char(0, i);
                proof {
                    assert(s@ =~= name@.take(i as int));
                }
                s
            }
        },
    };
    let mut r = stem.to_owned();
    r.append(".");
    r.append(ext);
    r
}

} // verus!
