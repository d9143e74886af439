//! A purely syntactic model of filesystem paths.
//!
//! A path is a flag saying whether it is absolute plus the sequence of its
//! non-empty, slash-free components. Parsing collapses repeated separators,
//! so `"/a//b/"` and `"/a/b"` denote the same path.

use vstd::prelude::*;

verus! {

/// One path component is well formed when it is non-empty and slash-free.
pub open spec fn seg_wf(seg: Seq<char>) -> bool {
    seg.len() > 0 && forall|k: int| 0 <= k < seg.len() ==> seg[k] != '/'
}

/// All components of a component list are well formed.
pub open spec fn segs_wf(ss: Seq<Seq<char>>) -> bool {
    forall|i: int| 0 <= i < ss.len() ==> seg_wf(#[trigger] ss[i])
}

/// Splits `s` on `'/'`, dropping empty pieces; `cur` is the piece read so far.
pub open spec fn split_segments(s: Seq<char>, cur: Seq<char>) -> Seq<Seq<char>>
    decreases s.len(),
{
    if s.len() == 0 {
        if cur.len() == 0 {
            Seq::empty()
        } else {
            seq![cur]
        }
    } else if s[0] == '/' {
        if cur.len() == 0 {
            split_segments(s.subrange(1, s.len() as int), Seq::empty())
        } else {
            seq![cur] + split_segments(s.subrange(1, s.len() as int), Seq::empty())
        }
    } else {
        split_segments(s.subrange(1, s.len() as int), cur.push(s[0]))
    }
}

/// The components that a path string denotes.
pub open spec fn path_segments(s: Seq<char>) -> Seq<Seq<char>> {
    split_segments(s, Seq::empty())
}

/// Whether a path string denotes an absolute path.
pub open spec fn path_is_absolute(s: Seq<char>) -> bool {
    s.len() > 0 && s[0] == '/'
}

/// Joins components with `'/'` between them, without a leading separator.
pub open spec fn join_relative(ss: Seq<Seq<char>>) -> Seq<char>
    decreases ss.len(),
{
    if ss.len() == 0 {
        Seq::empty()
    } else if ss.len() == 1 {
        ss[0]
    } else {
        ss[0] + seq!['/'] + join_relative(ss.subrange(1, ss.len() as int))
    }
}

/// The canonical string of a path: a leading `'/'` when absolute, then the
/// components joined with `'/'`.
pub open spec fn path_string(absolute: bool, ss: Seq<Seq<char>>) -> Seq<char> {
    if absolute {
        seq!['/'] + join_relative(ss)
    } else {
        join_relative(ss)
    }
}

/// A filesystem path, kept as its parsed components.
pub struct FilePath {
    /// Whether the path starts at the filesystem root.
    pub absolute: bool,
    /// The path's components, in order, each non-empty and slash-free.
    pub segments: Vec<String>,
}

impl FilePath {
    /// The mathematical value of the component list.
    pub open spec fn segs(&self) -> Seq<Seq<char>> {
        self.segments.deep_view()
    }

    /// Well-formedness: every component is non-empty and slash-free.
    pub open spec fn wf(&self) -> bool {
        segs_wf(self.segs())
    }

    /// The empty relative path, as an unset or default path value.
    pub open spec fn is_empty_path(&self) -> bool {
        !self.absolute && self.segs().len() == 0
    }

    /// Two paths denote the same location.
    pub open spec fn same_path(&self, other: &FilePath) -> bool {
        self.absolute == other.absolute && self.segs() =~= other.segs()
    }

    /// The empty relative path.
    pub fn new() -> (r: FilePath)
        ensures
            r.is_empty_path(),
            r.wf(),
            !r.absolute,
            r.segs() =~= Seq::<Seq<char>>::empty(),
    {
        FilePath { absolute: false, segments: Vec::new() }
    }

    /// The filesystem root.
    pub fn root() -> (r: FilePath)
        ensures
            r.absolute,
            r.segs() =~= Seq::<Seq<char>>::empty(),
            r.wf(),
    {
        FilePath { absolute: true, segments: Vec::new() }
    }

    /// Parses a path string into its components.
    pub fn from_string(s: &str) -> (r: FilePath)
        ensures
            r.absolute == path_is_absolute(s@),
            r.segs() =~= path_segments(s@),
            r.wf(),
    {
        let n: usize = s.unicode_len();
        let absolute: bool = if n > 0 {
            s.get_char(0) == '/'
        } else {
            false
        };
        let mut done: Vec<String> = Vec::new();
        let mut i: usize = 0;
        let mut start: usize = 0;
        proof {
            assert(s@.skip(0) =~= s@);
            assert(s@.subrange(0, 0) =~= Seq::<char>::empty());
        }
        while i < n
            invariant
                n == s@.len(),
                0 <= start <= i <= n,
                forall|k: int| start <= k < i ==> s@[k] != '/',
                path_segments(s@) =~= done.deep_view() + split_segments(
                    s@.skip(i as int),
                    s@.subrange(start as int, i as int),
                ),
                segs_wf(done.deep_view()),
            decreases n - i,
        {
            let ghost rest = s@.skip(i as int);
            let ghost cur = s@.subrange(start as int, i as int);
            let c = s.get_char(i);
            proof {
                assert(rest[0] == s@[i as int]);
                assert(rest.subrange(1, rest.len() as int) =~= s@.skip(i as int + 1));
            }
            if c == '/' {
                if start < i {
                    let piece = s.substring_char(start, i);
                    let seg = String::from_str(piece);
                    let ghost old_deep = done.deep_view();
                    proof {
                        assert(seg@ == cur);
                        assert(split_segments(rest, cur) =~= seq![cur] + split_segments(
                            s@.skip(i as int + 1),
                            Seq::empty(),
                        ));
                    }
                    done.push(seg);
                    proof {
                        assert(done.deep_view() =~= old_deep.push(cur));
                        assert(old_deep.push(cur) + split_segments(
                            s@.skip(i as int + 1),
                            Seq::empty(),
                        ) =~= old_deep + (seq![cur] + split_segments(
                            s@.skip(i as int + 1),
                            Seq::empty(),
                        )));
                    }
                } else {
                    proof {
                        assert(cur =~= Seq::<char>::empty());
                    }
                }
                proof {
                    assert(s@.subrange(i as int + 1, i as int + 1) =~= Seq::<char>::empty());
                }
                start = i + 1;
            } else {
                proof {
                    assert(cur.push(c) =~= s@.subrange(start as int, i as int + 1));
                }
            }
            i = i + 1;
        }
        let ghost rest = s@.skip(n as int);
        proof {
            assert(rest =~= Seq::<char>::empty());
        }
        if start < n {
            let piece = s.substring_char(start, n);
            let seg = String::from_str(piece);
            let ghost old_deep = done.deep_view();
            proof {
                let ghost cur = s@.subrange(start as int, n as int);
                assert(seg@ == cur);
                assert(split_segments(rest, cur) =~= seq![cur]);
            }
            done.push(seg);
            proof {
                let ghost cur = s@.subrange(start as int, n as int);
                assert(done.deep_view() =~= old_deep.push(cur));
                assert(old_deep.push(cur) =~= old_deep + seq![cur]);
            }
        } else {
            proof {
                assert(s@.subrange(start as int, n as int) =~= Seq::<char>::empty());
            }
        }
        FilePath { absolute, segments: done }
    }

    /// Renders the path as a string: `'/'`-joined components, with a leading
    /// `'/'` when absolute; the root is `"/"` and the empty path is `""`.
    pub fn to_string(&self) -> (r: String)
        ensures
            r@ =~= path_string(self.absolute, self.segs()),
    {
        let mut out = String::new();
        proof {
            reveal_strlit("/");
            assert(("/")@ =~= seq!['/']);
        }
        if self.absolute {
            out.append("/");
        }
        proof {
            assert(self.segs().take(0) =~= Seq::<Seq<char>>::empty());
            assert(out@ =~= path_string(self.absolute, self.segs().take(0)));
        }
        let mut k: usize = 0;
        while k < self.segments.len()
            invariant
                0 <= k <= self.segments.len(),
                out@ =~= path_string(self.absolute, self.segs().take(k as int)),
            decreases self.segments.len() - k,
        {
            proof {
                reveal_strlit("/");
                assert(("/")@ =~= seq!['/']);
            }
            if k > 0 {
                out.append("/");
            }
            out.append(self.segments[k].as_str());
            proof {
                let pre = self.segs().take(k as int);
                let x = self.segs()[k as int];
                assert(self.segments@[k as int].deep_view() == x);
                assert(self.segs().take(k as int + 1) =~= pre.push(x));
                lemma_join_push(pre, x);
                if k == 0 {
                    assert(out@ =~= path_string(self.absolute, pre.push(x)));
                } else {
                    assert(out@ =~= path_string(self.absolute, pre) + seq!['/'] + x);
                    assert(path_string(self.absolute, pre.push(x)) =~= path_string(
                        self.absolute,
                        pre,
                    ) + seq!['/'] + x);
                }
            }
            k = k + 1;
        }
        proof {
            assert(self.segs().take(self.segments.len() as int) =~= self.segs());
        }
        out
    }

    /// An owned copy of the path.
    pub fn clone_path(&self) -> (r: FilePath)
        ensures
            r.absolute == self.absolute,
            r.segs() =~= self.segs(),
    {
        FilePath { absolute: self.absolute, segments: clone_prefix(&self.segments, self.segments.len()) }
    }

    /// The path without its last component; `None` for the root and for the
    /// empty path.
    pub fn parent(&self) -> (r: Option<FilePath>)
        ensures
            match r {
                Some(p) => {
                    &&& self.segs().len() > 0
                    &&& p.absolute == self.absolute
                    &&& p.segs() =~= self.segs().drop_last()
                },
                None => self.segs().len() == 0,
            },
    {
        if self.segments.len() == 0 {
            None
        } else {
            let pre = clone_prefix(&self.segments, self.segments.len() - 1);
            Some(FilePath { absolute: self.absolute, segments: pre })
        }
    }

    /// Whether two paths denote the same location.
    pub fn path_eq(&self, other: &FilePath) -> (r: bool)
        ensures
            r == self.same_path(other),
    {
        if self.absolute != other.absolute {
            return false;
        }
        if self.segments.len() != other.segments.len() {
            assert(self.segs().len() != other.segs().len());
            return false;
        }
        let mut i: usize = 0;
        while i < self.segments.len()
            invariant
                0 <= i <= self.segments.len(),
                self.segments.len() == other.segments.len(),
                forall|j: int| 0 <= j < i ==> self.segs()[j] == other.segs()[j],
            decreases self.segments.len() - i,
        {
            if !string_eq(&self.segments[i], &other.segments[i]) {
                assert(self.segs()[i as int] != other.segs()[i as int]);
                return false;
            }
            assert(self.segs()[i as int] == other.segs()[i as int]);
            i = i + 1;
        }
        assert(self.segs() =~= other.segs());
        true
    }
}

/// Whether `(ra, r)` is the component-wise longest common prefix of the
/// paths `(aa, a)` and `(ba, b)`; paths that do not share a root have the
/// empty relative path in common.
pub open spec fn common_prefix_of(
    aa: bool,
    a: Seq<Seq<char>>,
    ba: bool,
    b: Seq<Seq<char>>,
    ra: bool,
    r: Seq<Seq<char>>,
) -> bool {
    if aa != ba {
        !ra && r.len() == 0
    } else {
        let k = r.len() as int;
        &&& ra == aa
        &&& k <= a.len()
        &&& k <= b.len()
        &&& r =~= a.take(k)
        &&& r =~= b.take(k)
        &&& (k < a.len() && k < b.len() ==> a[k] != b[k])
    }
}

/// Splitting walks over a slash-free stretch by moving it into the piece
/// being read.
proof fn lemma_split_over_segment(seg: Seq<char>, tail: Seq<char>, cur: Seq<char>)
    requires
        forall|k: int| 0 <= k < seg.len() ==> seg[k] != '/',
    ensures
        split_segments(seg + tail, cur) =~= split_segments(tail, cur + seg),
    decreases seg.len(),
{
    if seg.len() == 0 {
        assert(seg + tail =~= tail);
        assert(cur + seg =~= cur);
    } else {
        let c = seg[0];
        let whole = seg + tail;
        assert(whole.len() > 0);
        assert(whole[0] == c);
        assert(whole.subrange(1, whole.len() as int) =~= seg.skip(1) + tail);
        assert(forall|k: int| 0 <= k < seg.skip(1).len() ==> #[trigger] seg.skip(1)[k] != '/');
        lemma_split_over_segment(seg.skip(1), tail, cur.push(c));
        assert(cur.push(c) + seg.skip(1) =~= cur + seg);
    }
}

/// Splitting consumes a separator by closing the piece being read.
proof fn lemma_split_at_separator(tail: Seq<char>, cur: Seq<char>)
    ensures
        cur.len() == 0 ==> split_segments(seq!['/'] + tail, cur) =~= split_segments(
            tail,
            Seq::empty(),
        ),
        cur.len() > 0 ==> split_segments(seq!['/'] + tail, cur) =~= seq![cur] + split_segments(
            tail,
            Seq::empty(),
        ),
{
    let whole = seq!['/'] + tail;
    assert(whole[0] == '/');
    assert(whole.subrange(1, whole.len() as int) =~= tail);
}

/// Parsing a joined component list gives the components back.
proof fn lemma_split_of_join(ss: Seq<Seq<char>>)
    requires
        segs_wf(ss),
    ensures
        split_segments(join_relative(ss), Seq::empty()) =~= ss,
    decreases ss.len(),
{
    if ss.len() == 0 {
    } else if ss.len() == 1 {
        let seg = ss[0];
        assert(seg_wf(seg));
        assert(join_relative(ss) =~= seg + Seq::<char>::empty());
        lemma_split_over_segment(seg, Seq::empty(), Seq::empty());
        assert(Seq::<char>::empty() + seg =~= seg);
        assert(split_segments(Seq::<char>::empty(), seg) =~= seq![seg]);
        assert(seq![seg] =~= ss);
    } else {
        let seg = ss[0];
        let rest = ss.subrange(1, ss.len() as int);
        assert(seg_wf(seg));
        assert(segs_wf(rest));
        let tail = seq!['/'] + join_relative(rest);
        assert(join_relative(ss) =~= seg + tail);
        lemma_split_over_segment(seg, tail, Seq::empty());
        assert(Seq::<char>::empty() + seg =~= seg);
        lemma_split_at_separator(join_relative(rest), seg);
        lemma_split_of_join(rest);
        assert(seq![seg] + rest =~= ss);
    }
}

/// The law of the path model: printing a well-formed path and parsing the
/// string back yields the same path.
pub proof fn lemma_path_string_round_trip(absolute: bool, ss: Seq<Seq<char>>)
    requires
        segs_wf(ss),
    ensures
        path_segments(path_string(absolute, ss)) =~= ss,
        path_is_absolute(path_string(absolute, ss)) == absolute,
{
    let printed = path_string(absolute, ss);
    if absolute {
        assert(printed =~= seq!['/'] + join_relative(ss));
        assert(printed[0] == '/');
        lemma_split_at_separator(join_relative(ss), Seq::empty());
        lemma_split_of_join(ss);
    } else {
        lemma_split_of_join(ss);
        if ss.len() == 0 {
            assert(printed.len() == 0);
        } else {
            assert(seg_wf(ss[0]));
            if ss.len() == 1 {
                assert(printed =~= ss[0]);
                assert(printed[0] == ss[0][0]);
            } else {
                assert(printed =~= ss[0] + (seq!['/'] + join_relative(
                    ss.subrange(1, ss.len() as int),
                )));
                assert(printed[0] == ss[0][0]);
            }
            assert(printed[0] != '/');
        }
    }
}

/// The index of the last `'.'` in a file name, if any.
pub open spec fn last_dot(s: Seq<char>) -> Option<int>
    decreases s.len(),
{
    if s.len() == 0 {
        None
    } else if s[s.len() - 1] == '.' {
        Some(s.len() - 1)
    } else {
        last_dot(s.drop_last())
    }
}

/// The file name without its extension. A lone leading dot starts a hidden
/// file name, not an extension.
pub open spec fn stem_of(name: Seq<char>) -> Seq<char> {
    match last_dot(name) {
        Option::None => name,
        Option::Some(k) => if k == 0 {
            name
        } else {
            name.take(k)
        },
    }
}

/// The extension of a file name; empty when there is none.
pub open spec fn ext_of(name: Seq<char>) -> Seq<char> {
    match last_dot(name) {
        Option::None => Seq::empty(),
        Option::Some(k) => if k == 0 {
            Seq::empty()
        } else {
            name.skip(k + 1)
        },
    }
}

/// The string of a directory path extended by one file name.
pub open spec fn joined_name_string(absolute: bool, ss: Seq<Seq<char>>, name: Seq<char>) -> Seq<
    char,
> {
    if ss.len() == 0 {
        if absolute {
            seq!['/'] + name
        } else {
            name
        }
    } else {
        path_string(absolute, ss) + seq!['/'] + name
    }
}

impl FilePath {
    /// Appends `other` onto `self`; an absolute `other` replaces `self`.
    pub fn join(&self, other: &FilePath) -> (r: FilePath)
        ensures
            other.absolute ==> r.absolute && r.segs() =~= other.segs(),
            !other.absolute ==> r.absolute == self.absolute && r.segs() =~= self.segs()
                + other.segs(),
    {
        if other.absolute {
            return other.clone_path();
        }
        let mut out = clone_prefix(&self.segments, self.segments.len());
        proof {
            assert(self.segs().take(self.segments.len() as int) =~= self.segs());
        }
        let mut i: usize = 0;
        while i < other.segments.len()
            invariant
                0 <= i <= other.segments.len(),
                out.deep_view() =~= self.segs() + other.segs().take(i as int),
            decreases other.segments.len() - i,
        {
            let ghost old_deep = out.deep_view();
            out.push(other.segments[i].clone());
            proof {
                assert(out.deep_view() =~= old_deep.push(other.segs()[i as int]));
                assert(self.segs() + other.segs().take(i as int + 1) =~= (self.segs()
                    + other.segs().take(i as int)).push(other.segs()[i as int]));
            }
            i = i + 1;
        }
        proof {
            assert(other.segs().take(other.segments.len() as int) =~= other.segs());
        }
        FilePath { absolute: self.absolute, segments: out }
    }

    /// The string of this directory path extended by one file name.
    pub fn join_name_string(&self, name: &str) -> (r: String)
        ensures
            r@ =~= joined_name_string(self.absolute, self.segs(), name@),
    {
        let mut out = self.to_string();
        proof {
            reveal_strlit("/");
            assert(("/")@ =~= seq!['/']);
        }
        if self.segments.len() > 0 {
            out.append("/");
        }
        out.append(name);
        proof {
            if self.segs().len() == 0 {
                if self.absolute {
                    assert(path_string(true, self.segs()) =~= seq!['/']);
                    assert(out@ =~= seq!['/'] + name@);
                } else {
                    assert(path_string(false, self.segs()) =~= Seq::<char>::empty());
                    assert(out@ =~= name@);
                }
            }
        }
        out
    }

    /// The remainder of `self` after its prefix `base`, as a relative path;
    /// `None` when `base` is not a prefix of `self`.
    pub fn strip_prefix(&self, base: &FilePath) -> (r: Option<FilePath>)
        ensures
            match r {
                Some(rel) => {
                    &&& self.absolute == base.absolute
                    &&& base.segs().is_prefix_of(self.segs())
                    &&& !rel.absolute
                    &&& rel.segs() =~= self.segs().skip(base.segs().len() as int)
                },
                None => !(self.absolute == base.absolute && base.segs().is_prefix_of(self.segs())),
            },
    {
        if self.absolute != base.absolute {
            return None;
        }
        if base.segments.len() > self.segments.len() {
            assert(!base.segs().is_prefix_of(self.segs()));
            return None;
        }
        let mut i: usize = 0;
        while i < base.segments.len()
            invariant
                0 <= i <= base.segments.len() <= self.segments.len(),
                forall|j: int| 0 <= j < i ==> base.segs()[j] == self.segs()[j],
            decreases base.segments.len() - i,
        {
            if !string_eq(&base.segments[i], &self.segments[i]) {
                assert(base.segs()[i as int] != self.segs()[i as int]);
                assert(!base.segs().is_prefix_of(self.segs()));
                return None;
            }
            assert(base.segs()[i as int] == self.segs()[i as int]);
            i = i + 1;
        }
        assert(base.segs().is_prefix_of(self.segs())) by {
            assert(base.segs() =~= self.segs().subrange(0, base.segs().len() as int));
        }
        let mut rest: Vec<String> = Vec::new();
        let mut k: usize = base.segments.len();
        while k < self.segments.len()
            invariant
                base.segments.len() <= k <= self.segments.len(),
                rest.deep_view() =~= self.segs().subrange(base.segs().len() as int, k as int),
            decreases self.segments.len() - k,
        {
            let ghost old_deep = rest.deep_view();
            rest.push(self.segments[k].clone());
            proof {
                assert(rest.deep_view() =~= old_deep.push(self.segs()[k as int]));
                assert(self.segs().subrange(base.segs().len() as int, k as int + 1) =~= self.segs()
                    .subrange(base.segs().len() as int, k as int).push(self.segs()[k as int]));
            }
            k = k + 1;
        }
        Some(FilePath { absolute: false, segments: rest })
    }

    /// The longest common prefix of two paths, component by component; paths
    /// that do not share a root have the empty path in common.
    pub fn common_prefix(&self, other: &FilePath) -> (r: FilePath)
        ensures
            common_prefix_of(
                self.absolute,
                self.segs(),
                other.absolute,
                other.segs(),
                r.absolute,
                r.segs(),
            ),
    {
        if self.absolute != other.absolute {
            return FilePath::new();
        }
        let mut out: Vec<String> = Vec::new();
        let mut i: usize = 0;
        while i < self.segments.len() && i < other.segments.len()
            invariant
                self.absolute == other.absolute,
                0 <= i <= self.segments.len(),
                i <= other.segments.len(),
                out.deep_view() =~= self.segs().take(i as int),
                out.deep_view() =~= other.segs().take(i as int),
            decreases self.segments.len() - i,
        {
            if !string_eq(&self.segments[i], &other.segments[i]) {
                assert(self.segs()[i as int] != other.segs()[i as int]);
                return FilePath { absolute: self.absolute, segments: out };
            }
            let ghost old_deep = out.deep_view();
            out.push(self.segments[i].clone());
            proof {
                assert(out.deep_view() =~= old_deep.push(self.segs()[i as int]));
                assert(self.segs().take(i as int + 1) =~= self.segs().take(i as int).push(
                    self.segs()[i as int],
                ));
                assert(other.segs().take(i as int + 1) =~= other.segs().take(i as int).push(
                    other.segs()[i as int],
                ));
            }
            i = i + 1;
        }
        FilePath { absolute: self.absolute, segments: out }
    }

    /// The last component of the path, or an empty string when there is none.
    pub fn file_name(&self) -> (r: String)
        ensures
            self.segs().len() > 0 ==> r@ =~= self.segs().last(),
            self.segs().len() == 0 ==> r@ =~= Seq::<char>::empty(),
    {
        if self.segments.len() == 0 {
            String::new()
        } else {
            self.segments[self.segments.len() - 1].clone()
        }
    }

    /// The last component without its extension, or an empty string when the
    /// path has no components.
    pub fn file_stem(&self) -> (r: String)
        ensures
            self.segs().len() > 0 ==> r@ =~= stem_of(self.segs().last()),
            self.segs().len() == 0 ==> r@ =~= Seq::<char>::empty(),
    {
        if self.segments.len() == 0 {
            return String::new();
        }
        let name = &self.segments[self.segments.len() - 1];
        let s = name.as_str();
        match find_last_dot(s) {
            Some(k) => {
                if k == 0 {
                    name.clone()
                } else {
                    String::from_str(s.substring_char(0, k))
                }
            },
            None => name.clone(),
        }
    }

    /// The extension of the last component, or an empty string when there is
    /// none.
    pub fn extension(&self) -> (r: String)
        ensures
            self.segs().len() > 0 ==> r@ =~= ext_of(self.segs().last()),
            self.segs().len() == 0 ==> r@ =~= Seq::<char>::empty(),
    {
        if self.segments.len() == 0 {
            return String::new();
        }
        let name = &self.segments[self.segments.len() - 1];
        let s = name.as_str();
        let n: usize = s.unicode_len();
        match find_last_dot(s) {
            Some(k) => {
                if k == 0 {
                    String::new()
                } else {
                    String::from_str(s.substring_char(k + 1, n))
                }
            },
            None => String::new(),
        }
    }
}

/// The position of the last `'.'` in a string, if any.
fn find_last_dot(s: &str) -> (r: Option<usize>)
    ensures
        match r {
            Some(k) => last_dot(s@) == Some(k as int) && k < s@.len(),
            None => last_dot(s@) == Option::<int>::None,
        },
{
    let n: usize = s.unicode_len();
    proof {
        assert(s@.take(n as int) =~= s@);
    }
    let mut j: usize = n;
    while j > 0
        invariant
            0 <= j <= n == s@.len(),
            last_dot(s@) == last_dot(s@.take(j as int)),
        decreases j,
    {
        let c = s.get_char(j - 1);
        proof {
            let pre = s@.take(j as int);
            assert(pre.len() == j);
            assert(pre[j - 1] == s@[j - 1]);
            if c != '.' {
                assert(pre.drop_last() =~= s@.take(j as int - 1));
            }
        }
        if c == '.' {
            return Some(j - 1);
        }
        j = j - 1;
    }
    proof {
        assert(s@.take(0) =~= Seq::<char>::empty());
    }
    None
}

/// Whether two strings hold the same characters.
pub fn string_eq(a: &String, b: &String) -> (r: bool)
    ensures
        r == (a@ == b@),
{
    a.eq(b)
}

/// Clones the first `count` elements of a string vector.
fn clone_prefix(v: &Vec<String>, count: usize) -> (r: Vec<String>)
    requires
        count <= v.len(),
    ensures
        r.deep_view() =~= v.deep_view().take(count as int),
{
    let mut out: Vec<String> = Vec::new();
    let mut i: usize = 0;
    while i < count
        invariant
            0 <= i <= count <= v.len(),
            out.deep_view() =~= v.deep_view().take(i as int),
        decreases count - i,
    {
        let ghost old_deep = out.deep_view();
        out.push(v[i].clone());
        proof {
            assert(out.deep_view() =~= old_deep.push(v@[i as int]@));
            assert(v.deep_view().take(i as int + 1) =~= v.deep_view().take(i as int).push(
                v.deep_view()[i as int],
            ));
        }
        i = i + 1;
    }
    out
}

/// Appending one component to a join appends a separator and the component.
proof fn lemma_join_push(ss: Seq<Seq<char>>, x: Seq<char>)
    ensures
        ss.len() == 0 ==> join_relative(ss.push(x)) =~= x,
        ss.len() > 0 ==> join_relative(ss.push(x)) =~= join_relative(ss) + seq!['/'] + x,
    decreases ss.len(),
{
    let p = ss.push(x);
    if ss.len() == 0 {
        assert(p.len() == 1);
        assert(p[0] == x);
    } else if ss.len() == 1 {
        assert(p.len() == 2);
        assert(p.subrange(1, 2) =~= seq![x]);
        assert(join_relative(p.subrange(1, 2)) =~= x);
        assert(join_relative(p) =~= p[0] + seq!['/'] + x);
        assert(p[0] == ss[0]);
        assert(join_relative(ss) =~= ss[0]);
    } else {
        let tail = ss.subrange(1, ss.len() as int);
        lemma_join_push(tail, x);
        assert(p.subrange(1, p.len() as int) =~= tail.push(x));
        assert(join_relative(p) =~= p[0] + seq!['/'] + join_relative(tail.push(x)));
        assert(join_relative(tail.push(x)) =~= join_relative(tail) + seq!['/'] + x);
        assert(join_relative(ss) =~= ss[0] + seq!['/'] + join_relative(tail));
        assert(p[0] == ss[0]);
        assert((ss[0] + seq!['/'] + (join_relative(tail) + seq!['/'] + x)) =~= (ss[0] + seq!['/']
            + join_relative(tail)) + seq!['/'] + x);
    }
}

} // verus!
