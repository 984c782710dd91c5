//! What a loaded module carries: its `.modinfo` pairs and its entry points.
use vstd::prelude::*;
use vstd::slice::slice_subrange;
use vstd::string::StringExecFns;
use vstd::utf8::{decode_utf8, valid_utf8};
use crate::elf::str_from_utf8;
use crate::ModuleLoadErr;

verus! {

/// The first index in `[i, end)` where `s` holds the byte `b`.
pub open spec fn find_in(s: Seq<u8>, i: int, end: int, b: u8) -> Option<int>
    decreases end - i,
{
    if i < 0 || i >= end || i >= s.len() {
        None
    } else if s[i] == b {
        Some(i)
    } else {
        find_in(s, i + 1, end, b)
    }
}

/// The `key=value` pairs of a `.modinfo` image from `pos`: each token ends in
/// a NUL and splits at its first `=`. `None` if a token lacks either.
pub open spec fn modinfo_from(s: Seq<u8>, pos: int) -> Option<Seq<(Seq<u8>, Seq<u8>)>>
    decreases s.len() - pos,
{
    if pos < 0 || pos >= s.len() {
        Some(Seq::empty())
    } else {
        match find_in(s, pos, s.len() as int, 0) {
            None => None,
            Some(n) => if n < pos || n >= s.len() {
                None
            } else {
                match find_in(s, pos, n, 0x3d) {
                    None => None,
                    Some(e) => match modinfo_from(s, n + 1) {
                        None => None,
                        Some(rest) => Some(seq![(s.subrange(pos, e), s.subrange(e + 1, n))] + rest),
                    },
                }
            },
        }
    }
}

/// Whether every key and value of the pairs is valid UTF-8.
pub open spec fn pairs_utf8(ps: Seq<(Seq<u8>, Seq<u8>)>) -> bool {
    forall|i: int| #![trigger ps[i]] 0 <= i < ps.len() ==> valid_utf8(ps[i].0) && valid_utf8(ps[i].1)
}

/// The pairs read as text.
pub open spec fn decode_pairs(ps: Seq<(Seq<u8>, Seq<u8>)>) -> Seq<(Seq<char>, Seq<char>)> {
    ps.map_values(|p: (Seq<u8>, Seq<u8>)| (decode_utf8(p.0), decode_utf8(p.1)))
}

/// The ordered `(key, value)` pairs of a module's `.modinfo` section.
#[derive(Clone)]
pub struct ModuleInfo {
    kv: Vec<(String, String)>,
}

/// The first value stored under `key`.
pub open spec fn lookup(kv: Seq<(Seq<char>, Seq<char>)>, key: Seq<char>, i: int) -> Option<Seq<char>>
    decreases kv.len() - i,
{
    if i < 0 || i >= kv.len() {
        None
    } else if kv[i].0 == key {
        Some(kv[i].1)
    } else {
        lookup(kv, key, i + 1)
    }
}

impl View for ModuleInfo {
    type V = Seq<(Seq<char>, Seq<char>)>;

    closed spec fn view(&self) -> Seq<(Seq<char>, Seq<char>)> {
        self.kv@.map_values(|p: (String, String)| (p.0@, p.1@))
    }
}

impl ModuleInfo {
    pub fn new() -> (r: ModuleInfo)
        ensures
            r@ == Seq::<(Seq<char>, Seq<char>)>::empty(),
    {
        let r = ModuleInfo { kv: Vec::new() };
        assert(r@ =~= Seq::<(Seq<char>, Seq<char>)>::empty());
        r
    }

    pub fn add_kv(&mut self, key: String, value: String)
        ensures
            final(self)@ == old(self)@.push((key@, value@)),
    {
        self.kv.push((key, value));
        assert(self@ =~= old(self)@.push((key@, value@)));
    }

    /// The first value stored under `key`.
    pub fn get(&self, key: &str) -> (r: Option<&str>)
        ensures
            r matches Some(v) ==> lookup(self@, key@, 0) == Some(v@),
            r is None ==> lookup(self@, key@, 0) is None,
    {
        let wanted = String::from_str(key);
        let mut i: usize = 0;
        while i < self.kv.len()
            invariant
                i <= self.kv@.len(),
                wanted@ == key@,
                lookup(self@, key@, 0) == lookup(self@, key@, i as int),
            decreases self.kv@.len() - i,
        {
            if self.kv[i].0 == wanted {
                let v: &str = &self.kv[i].1;
                return Some(v);
            }
            i += 1;
        }
        None
    }

    /// Reads a `.modinfo` image: NUL-terminated `key=value` tokens.
    pub fn parse(image: &[u8]) -> (r: Result<ModuleInfo, ModuleLoadErr>)
        ensures
            match modinfo_from(image@, 0) {
                None => r == Err::<ModuleInfo, _>(ModuleLoadErr::InvalidElf),
                Some(ps) => if pairs_utf8(ps) {
                    r matches Ok(info) && info@ == decode_pairs(ps)
                } else {
                    r == Err::<ModuleInfo, _>(ModuleLoadErr::InvalidElf)
                },
            },
    {
        let mut info = ModuleInfo::new();
        let len = image.len();
        let mut pos: usize = 0;
        let ghost mut done: Seq<(Seq<u8>, Seq<u8>)> = Seq::empty();
        assert(done + Seq::<(Seq<u8>, Seq<u8>)>::empty() =~= done);
        while pos < len
            invariant
                len == image@.len(),
                pos <= len,
                pairs_utf8(done),
                info@ == decode_pairs(done),
                modinfo_from(image@, 0) == match modinfo_from(image@, pos as int) {
                    Some(rest) => Some(done + rest),
                    None => None::<Seq<(Seq<u8>, Seq<u8>)>>,
                },
            decreases len - pos,
        {
            let mut n = pos;
            while n < len && image[n] != 0
                invariant
                    pos <= n <= len,
                    len == image@.len(),
                    find_in(image@, pos as int, len as int, 0) == find_in(image@, n as int, len as int, 0),
                decreases len - n,
            {
                n += 1;
            }
            if n == len {
                return Err(ModuleLoadErr::InvalidElf);
            }
            let mut e = pos;
            while e < n && image[e] != 0x3d
                invariant
                    pos <= e <= n < len,
                    len == image@.len(),
                    find_in(image@, pos as int, n as int, 0x3d) == find_in(image@, e as int, n as int, 0x3d),
                decreases n - e,
            {
                e += 1;
            }
            if e == n {
                return Err(ModuleLoadErr::InvalidElf);
            }
            let ghost pair = (image@.subrange(pos as int, e as int), image@.subrange(e + 1, n as int));
            let ghost tail = modinfo_from(image@, n + 1);
            assert(modinfo_from(image@, pos as int) == match tail {
                Some(rest) => Some(seq![pair] + rest),
                None => None::<Seq<(Seq<u8>, Seq<u8>)>>,
            });
            proof {
                if let Some(rest) = tail {
                    assert(done + (seq![pair] + rest) =~= done.push(pair) + rest);
                    assert((done + (seq![pair] + rest))[done.len() as int] == pair);
                }
            }
            let key = match str_from_utf8(slice_subrange(image, pos, e)) {
                Some(k) => String::from_str(k),
                None => {
                    proof {
                        if let Some(rest) = tail {
                            let ps = done + (seq![pair] + rest);
                            assert(ps[done.len() as int] == pair);
                            assert(!valid_utf8(ps[done.len() as int].0));
                        }
                    }
                    return Err(ModuleLoadErr::InvalidElf);
                },
            };
            let value = match str_from_utf8(slice_subrange(image, e + 1, n)) {
                Some(v) => String::from_str(v),
                None => {
                    proof {
                        if let Some(rest) = tail {
                            let ps = done + (seq![pair] + rest);
                            assert(ps[done.len() as int] == pair);
                            assert(!valid_utf8(ps[done.len() as int].1));
                            assert(!(valid_utf8(ps[done.len() as int].0) && valid_utf8(ps[done.len() as int].1)));
                            assert(!pairs_utf8(ps));
                            assert(modinfo_from(image@, 0) == Some(ps));
                        }
                    }
                    return Err(ModuleLoadErr::InvalidElf);
                },
            };
            info.add_kv(key, value);
            proof {
                done = done.push(pair);
                assert(info@ =~= decode_pairs(done));
            }
            pos = n + 1;
        }
        Ok(info)
    }
}

/// A module's entry points, as the addresses of its `init` and `exit`
/// functions; each may be taken once.
pub struct Module {
    init: Option<u64>,
    exit: Option<u64>,
}

impl Module {
    pub closed spec fn spec_init(&self) -> Option<u64> {
        self.init
    }

    pub closed spec fn spec_exit(&self) -> Option<u64> {
        self.exit
    }

    pub fn new(init_fn: Option<u64>, exit_fn: Option<u64>) -> (r: Module)
        ensures
            r.spec_init() == init_fn,
            r.spec_exit() == exit_fn,
    {
        Module { init: init_fn, exit: exit_fn }
    }

    /// Takes the `init` entry point; later calls get `None`.
    pub fn take_init_fn(&mut self) -> (r: Option<u64>)
        ensures
            r == old(self).spec_init(),
            final(self).spec_init() is None,
            final(self).spec_exit() == old(self).spec_exit(),
    {
        let r = self.init;
        self.init = None;
        r
    }

    /// Takes the `exit` entry point; later calls get `None`.
    pub fn take_exit_fn(&mut self) -> (r: Option<u64>)
        ensures
            r == old(self).spec_exit(),
            final(self).spec_exit() is None,
            final(self).spec_init() == old(self).spec_init(),
    {
        let r = self.exit;
        self.exit = None;
        r
    }
}

} // verus!
