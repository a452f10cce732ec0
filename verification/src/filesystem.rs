use vstd::prelude::*;

use crate::error::{Error, ErrorCategory, Result};
use crate::text::{chars_of, push_char};

verus! {

/// The component-wise state of a path scan: the normalized text so far and the
/// component being read.
pub open spec fn flush_component(out: Seq<char>, component: Seq<char>) -> Option<Seq<char>> {
    if component.len() == 0 || component == seq!['.'] {
        Some(out)
    } else if component == seq!['.', '.'] {
        None
    } else {
        Some(out + seq!['/'] + component)
    }
}

/// The normalized text and the pending component after reading `s`, or `None`
/// where a completed component is `..`.
pub open spec fn scan_path(s: Seq<char>) -> Option<(Seq<char>, Seq<char>)>
    decreases s.len(),
{
    if s.len() == 0 {
        Some((Seq::empty(), Seq::empty()))
    } else {
        match scan_path(s.drop_last()) {
            None => None,
            Some((out, component)) => if s.last() == '/' {
                match flush_component(out, component) {
                    None => None,
                    Some(o) => Some((o, Seq::empty())),
                }
            } else {
                Some((out, component.push(s.last())))
            },
        }
    }
}

/// The normalized form of `s`: its `/`-separated components without empty and
/// `.` components, each preceded by `/`, or `/` when none remain. `None` where `s`
/// is not absolute, contains NUL, or has a `..` component.
pub open spec fn spec_normalize(s: Seq<char>) -> Option<Seq<char>> {
    if s.len() == 0 || s[0] != '/' || s.contains('\0') {
        None
    } else {
        match scan_path(s) {
            None => None,
            Some((out, component)) => match flush_component(out, component) {
                None => None,
                Some(o) => Some(
                    if o.len() == 0 {
                        seq!['/']
                    } else {
                        o
                    },
                ),
            },
        }
    }
}

/// The message of the error for a path that `spec_normalize` refuses.
pub open spec fn path_error_text(s: Seq<char>) -> Seq<char> {
    if s.len() == 0 || s[0] != '/' || s.contains('\0') {
        "filesystem path must be absolute"@
    } else {
        "filesystem path escapes root"@
    }
}

/// An absolute, normalized path inside a filesystem.
#[derive(Debug, PartialEq, Eq)]
pub struct FsPath(String);

impl Clone for FsPath {
    fn clone(&self) -> (r: Self)
        ensures
            r@ == self@,
    {
        proof {
            use_type_invariant(self);
        }
        FsPath(self.0.clone())
    }
}

impl View for FsPath {
    type V = Seq<char>;

    closed spec fn view(&self) -> Seq<char> {
        self.0@
    }
}

impl FsPath {
    /// Every path holds its own normal form.
    #[verifier::type_invariant]
    spec fn normalized(self) -> bool {
        spec_normalize(self.0@) == Some(self.0@)
    }
}

fn invalid(message: &str) -> (e: Error)
    ensures
        e.kind() == ErrorCategory::InvalidImage,
        e.text() == message@,
{
    Error::new(ErrorCategory::InvalidImage, message)
}

fn contains_nul(chars: &Vec<char>) -> (r: bool)
    ensures
        r == chars@.contains('\0'),
{
    let mut i: usize = 0;
    while i < chars.len()
        invariant
            i <= chars@.len(),
            forall|j: int| 0 <= j < i ==> chars@[j] != '\0',
        decreases chars@.len() - i,
    {
        if chars[i] == '\0' {
            return true;
        }
        i = i + 1;
    }
    false
}

/// Appends the pending component to `out` as `flush_component` does.
fn flush(out: &mut String, component: &Vec<char>) -> (ok: bool)
    ensures
        ok == flush_component(old(out)@, component@) is Some,
        ok ==> final(out)@ == flush_component(old(out)@, component@)->0,
{
    let n = component.len();
    if n == 0 || (n == 1 && component[0] == '.') {
        assert(n == 1 ==> component@ =~= seq!['.']) ;
        return true;
    }
    if n == 2 && component[0] == '.' && component[1] == '.' {
        assert(component@ =~= seq!['.', '.']);
        return false;
    }
    assert(component@ != seq!['.']) by {
        if component@ == seq!['.'] {
            assert(component@[0] == '.');
        }
    }
    assert(component@ != seq!['.', '.']) by {
        if component@ == seq!['.', '.'] {
            assert(component@[0] == '.' && component@[1] == '.');
        }
    }
    let ghost before = out@;
    push_char(out, '/');
    let mut i: usize = 0;
    while i < n
        invariant
            i <= n,
            n == component@.len(),
            out@ == before + seq!['/'] + component@.take(i as int),
        decreases n - i,
    {
        push_char(out, component[i]);
        assert(component@.take(i + 1) =~= component@.take(i as int).push(component@[i as int]));
        i = i + 1;
    }
    assert(component@.take(n as int) =~= component@);
    true
}

impl FsPath {
    /// The root directory.
    pub fn root() -> (p: Self)
        ensures
            p@ == seq!['/'],
    {
        let mut s = String::new();
        push_char(&mut s, '/');
        proof {
            let root = seq!['/'];
            assert(root.drop_last() =~= Seq::<char>::empty());
            assert(!root.contains('\0')) by {
                if root.contains('\0') {
                    let k = choose|k: int| 0 <= k < root.len() && root[k] == '\0';
                    assert(root[k] == '/');
                }
            }
            assert(scan_path(Seq::<char>::empty()) == Some((Seq::<char>::empty(), Seq::<char>::empty())));
            assert(root.last() == '/');
            assert(scan_path(root) == Some((Seq::<char>::empty(), Seq::<char>::empty())));
        }
        FsPath(s)
    }

    /// Parses an absolute path, dropping empty and `.` components and refusing
    /// any `..` component.
    pub fn parse(path: &str) -> (r: Result<Self>)
        ensures
            r is Ok <==> spec_normalize(path@) is Some,
            r matches Ok(p) ==> Some(p@) == spec_normalize(path@),
            r matches Ok(p) ==> spec_normalize(p@) == Some(p@),
            r matches Ok(p) ==> normal_path(p@),
            r matches Err(e) ==> e.kind() == ErrorCategory::InvalidImage && e.text()
                == path_error_text(path@),
    {
        proof {
            reveal_strlit("filesystem path must be absolute");
            reveal_strlit("filesystem path escapes root");
        }
        let chars = chars_of(path);
        if chars.len() == 0 || chars[0] != '/' || contains_nul(&chars) {
            return Err(invalid("filesystem path must be absolute"));
        }
        let mut out = String::new();
        let mut component: Vec<char> = Vec::new();
        let mut i: usize = 0;
        while i < chars.len()
            invariant
                i <= chars@.len(),
                chars@ == path@,
                path@.len() > 0 && path@[0] == '/' && !path@.contains('\0'),
                scan_path(chars@.take(i as int)) == Some((out@, component@)),
            decreases chars@.len() - i,
        {
            assert(chars@.take(i + 1).drop_last() =~= chars@.take(i as int));
            let c = chars[i];
            if c == '/' {
                if !flush(&mut out, &component) {
                    proof {
                        lemma_scan_fails_persist(chars@, (i + 1) as int, chars@.len() as int);
                        assert(chars@.take(chars@.len() as int) =~= chars@);
                    }
                    return Err(invalid("filesystem path escapes root"));
                }
                component = Vec::new();
            } else {
                component.push(c);
            }
            i = i + 1;
        }
        assert(chars@.take(chars@.len() as int) =~= chars@);
        if !flush(&mut out, &component) {
            return Err(invalid("filesystem path escapes root"));
        }
        if out.as_str().is_empty() {
            push_char(&mut out, '/');
            assert(out@ =~= seq!['/']);
        }
        proof {
            lemma_normalize_is_idempotent(path@);
        }
        Ok(FsPath(out))
    }

    /// The path as text.
    /// The text of every path, however it was made or copied, is already in
    /// normal form.
    pub fn as_str(&self) -> (s: &str)
        ensures
            s@ == self@,
            spec_normalize(s@) == Some(s@),
            normal_path(s@),
            s@[0] == '/' && !s@.contains('\0'),
    {
        proof {
            use_type_invariant(self);
            lemma_normalize_is_idempotent(self@);
        }
        self.0.as_str()
    }
}

/// A scan that fails on a prefix fails on every longer prefix.
proof fn lemma_scan_fails_persist(s: Seq<char>, n: int, m: int)
    requires
        0 <= n <= m <= s.len(),
        scan_path(s.take(n)) is None,
    ensures
        scan_path(s.take(m)) is None,
    decreases m - n,
{
    if m > n {
        lemma_scan_fails_persist(s, n, m - 1);
        assert(s.take(m).drop_last() =~= s.take(m - 1));
    }
}


/// Whether `c` can be a component of a normalized path: not empty, not `.` or
/// `..`, and free of `/` and NUL.
pub open spec fn good_component(c: Seq<char>) -> bool {
    &&& c.len() > 0
    &&& c != seq!['.']
    &&& c != seq!['.', '.']
    &&& !c.contains('/')
    &&& !c.contains('\0')
}

/// Each component preceded by `/`.
pub open spec fn joined_components(cs: Seq<Seq<char>>) -> Seq<char>
    decreases cs.len(),
{
    if cs.len() == 0 {
        Seq::empty()
    } else {
        joined_components(cs.drop_last()) + seq!['/'] + cs.last()
    }
}

/// Whether every component is good.
pub open spec fn all_good(cs: Seq<Seq<char>>) -> bool {
    forall|i: int| 0 <= i < cs.len() ==> good_component(#[trigger] cs[i])
}

/// Reading characters other than `/` only extends the pending component.
proof fn lemma_scan_plain(x: Seq<char>, c: Seq<char>)
    requires
        scan_path(x) is Some,
        !c.contains('/'),
    ensures
        scan_path(x + c) == Some((scan_path(x).unwrap().0, scan_path(x).unwrap().1 + c)),
    decreases c.len(),
{
    if c.len() == 0 {
        assert(x + c =~= x);
        assert(scan_path(x).unwrap().1 + c =~= scan_path(x).unwrap().1);
    } else {
        let d = c.drop_last();
        assert(!d.contains('/')) by {
            if d.contains('/') {
                let i = choose|i: int| 0 <= i < d.len() && d[i] == '/';
                assert(c[i] == '/');
            }
        }
        lemma_scan_plain(x, d);
        assert((x + c).drop_last() =~= x + d);
        assert((x + c).last() == c.last());
        assert(c.last() != '/') by {
            assert(c[c.len() - 1] == c.last());
        }
        assert(scan_path(x).unwrap().1 + d + seq![c.last()] =~= scan_path(x).unwrap().1 + c);
    }
}

/// The scan of a path and what remains pending at its end: the joined good
/// components before the last, and the last component pending.
proof fn lemma_scan_of_joined(cs: Seq<Seq<char>>)
    requires
        cs.len() > 0,
        all_good(cs),
    ensures
        scan_path(joined_components(cs)) == Some((joined_components(cs.drop_last()), cs.last())),
    decreases cs.len(),
{
    let prefix = joined_components(cs.drop_last());
    let slash = prefix + seq!['/'];
    if cs.len() == 1 {
        assert(cs.drop_last() =~= Seq::<Seq<char>>::empty());
        assert(prefix =~= Seq::<char>::empty());
        assert(slash =~= seq!['/']);
        assert(seq!['/'].drop_last() =~= Seq::<char>::empty());
        assert(scan_path(slash) == Some((Seq::<char>::empty(), Seq::<char>::empty())));
    } else {
        let rest = cs.drop_last();
        assert(all_good(rest)) by {
            assert forall|i: int| 0 <= i < rest.len() implies good_component(#[trigger] rest[i]) by {
                assert(rest[i] == cs[i]);
            }
        }
        lemma_scan_of_joined(rest);
        assert(good_component(rest.last())) by {
            assert(rest.last() == cs[rest.len() - 1]);
        }
        assert(slash.drop_last() =~= prefix);
        assert(flush_component(joined_components(rest.drop_last()), rest.last()) == Some(prefix));
        assert(scan_path(slash) == Some((prefix, Seq::<char>::empty())));
    }
    assert(good_component(cs.last())) by {
        assert(cs.last() == cs[cs.len() - 1]);
    }
    lemma_scan_plain(slash, cs.last());
    assert(Seq::<char>::empty() + cs.last() =~= cs.last());
}

/// What a successful scan leaves: good components joined so far, and a pending
/// component without `/` or NUL.
proof fn lemma_scan_shape(s: Seq<char>) -> (cs: Seq<Seq<char>>)
    requires
        scan_path(s) is Some,
        !s.contains('\0'),
    ensures
        all_good(cs),
        joined_components(cs) == scan_path(s).unwrap().0,
        !scan_path(s).unwrap().1.contains('/'),
        !scan_path(s).unwrap().1.contains('\0'),
    decreases s.len(),
{
    if s.len() == 0 {
        Seq::empty()
    } else {
        let d = s.drop_last();
        assert(!d.contains('\0')) by {
            if d.contains('\0') {
                let i = choose|i: int| 0 <= i < d.len() && d[i] == '\0';
                assert(s[i] == '\0');
            }
        }
        let cs = lemma_scan_shape(d);
        let (out, component) = scan_path(d).unwrap();
        if s.last() == '/' {
            if component.len() == 0 || component == seq!['.'] {
                cs
            } else {
                let grown = cs.push(component);
                assert(grown.drop_last() =~= cs);
                assert(all_good(grown)) by {
                    assert forall|i: int| 0 <= i < grown.len() implies good_component(#[trigger] grown[i]) by {
                        if i < cs.len() {
                            assert(grown[i] == cs[i]);
                        }
                    }
                }
                grown
            }
        } else {
            assert(s.last() != '\0') by {
                assert(s[s.len() - 1] == s.last());
            }
            assert(!component.push(s.last()).contains('/')) by {
                if component.push(s.last()).contains('/') {
                    let i = choose|i: int| 0 <= i < component.push(s.last()).len() && component.push(s.last())[i] == '/';
                    if i < component.len() {
                        assert(component[i] == '/');
                    }
                }
            }
            assert(!component.push(s.last()).contains('\0')) by {
                if component.push(s.last()).contains('\0') {
                    let i = choose|i: int| 0 <= i < component.push(s.last()).len() && component.push(s.last())[i] == '\0';
                    if i < component.len() {
                        assert(component[i] == '\0');
                    }
                }
            }
            cs
        }
    }
}

/// The joined components of a non-empty list start with `/` and hold no NUL.
proof fn lemma_joined_shape(cs: Seq<Seq<char>>)
    requires
        all_good(cs),
    ensures
        cs.len() > 0 ==> joined_components(cs).len() > 0 && joined_components(cs)[0] == '/',
        !joined_components(cs).contains('\0'),
    decreases cs.len(),
{
    if cs.len() > 0 {
        let rest = cs.drop_last();
        assert(all_good(rest)) by {
            assert forall|i: int| 0 <= i < rest.len() implies good_component(#[trigger] rest[i]) by {
                assert(rest[i] == cs[i]);
            }
        }
        lemma_joined_shape(rest);
        let j = joined_components(cs);
        let prefix = joined_components(rest);
        assert(good_component(cs.last())) by {
            assert(cs.last() == cs[cs.len() - 1]);
        }
        assert(j == prefix + seq!['/'] + cs.last());
        if rest.len() == 0 {
            assert(prefix =~= Seq::<char>::empty());
            assert(j[0] == '/');
        } else {
            assert(j[0] == prefix[0]);
        }
        assert(!j.contains('\0')) by {
            if j.contains('\0') {
                let i = choose|i: int| 0 <= i < j.len() && j[i] == '\0';
                if i < prefix.len() {
                    assert(prefix[i] == '\0');
                } else if i > prefix.len() {
                    assert(cs.last()[i - prefix.len() - 1] == '\0');
                }
            }
        }
    }
}

/// Whether `s` is a path in normal form: `/` alone, or one or more components,
/// each preceded by `/`, none of them empty, `.` or `..`, and none holding `/` or
/// NUL.
pub open spec fn normal_path(s: Seq<char>) -> bool {
    s == seq!['/'] || exists|cs: Seq<Seq<char>>|
        cs.len() > 0 && all_good(cs) && #[trigger] joined_components(cs) == s
}

/// Normalizing a normalized path gives it back, and what normalizing gives is a
/// path in normal form: every path that `FsPath::parse` accepts is made of
/// proper components only, and is already in the form it produces.
pub proof fn lemma_normalize_is_idempotent(s: Seq<char>)
    requires
        spec_normalize(s) is Some,
    ensures
        spec_normalize(spec_normalize(s).unwrap()) == spec_normalize(s),
        normal_path(spec_normalize(s).unwrap()),
{
    let cs = lemma_scan_shape(s);
    let (out, component) = scan_path(s).unwrap();
    let all = if component.len() == 0 || component == seq!['.'] {
        cs
    } else {
        let grown = cs.push(component);
        assert(grown.drop_last() =~= cs);
        assert(all_good(grown)) by {
            assert forall|i: int| 0 <= i < grown.len() implies good_component(#[trigger] grown[i]) by {
                if i < cs.len() {
                    assert(grown[i] == cs[i]);
                }
            }
        }
        grown
    };
    assert(flush_component(out, component) == Some(joined_components(all)));
    let n = spec_normalize(s).unwrap();
    lemma_joined_shape(all);
    if all.len() == 0 {
        assert(joined_components(all) =~= Seq::<char>::empty());
        assert(n =~= seq!['/']);
        assert(seq!['/'].drop_last() =~= Seq::<char>::empty());
        assert(!n.contains('\0')) by {
            if n.contains('\0') {
                let i = choose|i: int| 0 <= i < n.len() && n[i] == '\0';
                assert(n[i] == '/');
            }
        }
        assert(n.drop_last() =~= Seq::<char>::empty());
        assert(n.last() == '/');
        assert(scan_path(Seq::<char>::empty()) == Some((Seq::<char>::empty(), Seq::<char>::empty())));
        assert(flush_component(Seq::<char>::empty(), Seq::<char>::empty()) == Some(Seq::<char>::empty()));
        assert(scan_path(n) == Some((Seq::<char>::empty(), Seq::<char>::empty())));
    } else {
        assert(n == joined_components(all));
        assert(normal_path(n));
        lemma_scan_of_joined(all);
        assert(good_component(all.last())) by {
            assert(all.last() == all[all.len() - 1]);
        }
    }
}

/// The kind of a filesystem node.
#[derive(Debug, Clone, Copy, PartialEq, Eq, Structural)]
pub enum FileKind {
    Regular,
    Directory,
    Symlink,
    Other,
}

/// Identification and capacity of a mounted filesystem.
#[derive(Debug, Clone, PartialEq, Eq)]
pub struct FilesystemInfo {
    pub filesystem_type: String,
    pub label: Option<String>,
    pub uuid: Option<[u8; 16]>,
    pub block_size: Option<u32>,
    pub total_size: Option<u64>,
    pub free_size: Option<u64>,
}

/// Metadata of one filesystem node.
#[derive(Debug, Clone, Copy, PartialEq, Eq, Structural)]
pub struct NodeMetadata {
    pub kind: FileKind,
    pub size: u64,
    pub permissions: u16,
    pub uid: u32,
    pub gid: u32,
}

/// One named entry of a directory.
#[derive(Debug, Clone, PartialEq, Eq)]
pub struct DirectoryEntry {
    pub name: String,
    pub metadata: NodeMetadata,
}

impl DirectoryEntry {
    /// An identical copy of this entry.
    pub fn duplicate(&self) -> (r: Self)
        ensures
            r == *self,
    {
        DirectoryEntry { name: self.name.clone(), metadata: self.metadata }
    }
}

/// A read-only view of a filesystem. Implementations never modify the source.
pub trait ReadOnlyFilesystem {
    fn info(&self) -> Result<FilesystemInfo>;

    fn lookup(&self, path: &FsPath) -> Result<NodeMetadata>;

    fn read_dir(&self, path: &FsPath) -> Result<Vec<DirectoryEntry>>;

    /// Reads the file at `path` from byte `offset` into the start of
    /// `destination`, and returns how many bytes it read: at most the
    /// destination's length.
    fn read_file_at(&self, path: &FsPath, offset: u64, destination: &mut [u8]) -> (r: Result<usize>)
        ensures
            final(destination)@.len() == old(destination)@.len(),
            r matches Ok(n) ==> n <= old(destination)@.len(),
    ;

    fn read_link(&self, path: &FsPath) -> Result<FsPath>;
}

} // verus!
