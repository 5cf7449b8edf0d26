//! Path segmentation and joining.
//!
//! A request path is split on `/` into segments; only plain names are
//! kept (root markers, `.` and `..` references and empty segments are
//! discarded), so a resolved location can never point outside the
//! managed tree. Joining follows the usual rule: a separator is
//! inserted unless the base is empty or already ends in one.

use vstd::prelude::*;

verus! {

/// One piece of a request path, as the splitter classifies it.
#[derive(Debug, Clone, PartialEq, Eq)]
pub enum Component {
    /// The leading `/` of an absolute path.
    RootDir,
    /// A `.` segment.
    CurDir,
    /// A `..` segment.
    ParentDir,
    /// A plain name.
    Normal(String),
}

/// A plain name: non-empty and neither a current- nor a
/// parent-directory reference.
pub open spec fn is_plain_segment(s: Seq<char>) -> bool {
    s.len() > 0 && s != "."@ && s != ".."@
}

/// The singleton holding `cur` if it is a plain name, else nothing.
pub open spec fn kept(cur: Seq<char>) -> Seq<Seq<char>> {
    if is_plain_segment(cur) {
        seq![cur]
    } else {
        seq![]
    }
}

/// Scans `p` left to right with `cur` the segment read so far, closing
/// a segment at every `/` and at the end, and keeping the plain ones.
pub open spec fn scan_segments(p: Seq<char>, cur: Seq<char>) -> Seq<Seq<char>>
    decreases p.len(),
{
    if p.len() == 0 {
        kept(cur)
    } else if p[0] == '/' {
        kept(cur) + scan_segments(p.drop_first(), Seq::empty())
    } else {
        scan_segments(p.drop_first(), cur.push(p[0]))
    }
}

/// The plain-name segments of a path, in order: what remains after
/// separators, empty segments, `.` and `..` are discarded.
pub open spec fn normal_segments(p: Seq<char>) -> Seq<Seq<char>> {
    scan_segments(p, Seq::empty())
}

/// The plain names a single component contributes: one for a `Normal`
/// component, none otherwise.
pub open spec fn head_normal(c: Component) -> Seq<Seq<char>> {
    match c {
        Component::Normal(s) => seq![s@],
        _ => seq![],
    }
}

/// The plain-name segments among a component list, in order.
pub open spec fn normal_of(cs: Seq<Component>) -> Seq<Seq<char>>
    decreases cs.len(),
{
    if cs.len() == 0 {
        seq![]
    } else {
        head_normal(cs[0]) + normal_of(cs.drop_first())
    }
}

proof fn lemma_normal_of_push(cs: Seq<Component>, c: Component)
    ensures
        normal_of(cs.push(c)) == normal_of(cs) + head_normal(c),
    decreases cs.len(),
{
    let one = cs.push(c);
    if cs.len() == 0 {
        assert(one[0] == c);
        assert(one.drop_first() =~= Seq::<Component>::empty());
        assert(normal_of(one.drop_first()) =~= Seq::<Seq<char>>::empty());
        assert(normal_of(one) =~= head_normal(c));
        assert(normal_of(cs) + head_normal(c) =~= head_normal(c));
    } else {
        assert(one[0] == cs[0]);
        assert(one.drop_first() =~= cs.drop_first().push(c));
        lemma_normal_of_push(cs.drop_first(), c);
        assert(normal_of(one) == head_normal(cs[0]) + (normal_of(cs.drop_first())
            + head_normal(c)));
        assert(head_normal(cs[0]) + (normal_of(cs.drop_first()) + head_normal(c)) =~= (head_normal(
            cs[0],
        ) + normal_of(cs.drop_first())) + head_normal(c));
    }
}

/// Taking one more component appends exactly the plain names that
/// component contributes.
pub proof fn lemma_normal_of_take_push(cs: Seq<Component>, i: int)
    requires
        0 <= i < cs.len(),
    ensures
        normal_of(cs.take(i + 1)) == normal_of(cs.take(i)) + head_normal(cs[i]),
{
    assert(cs.take(i + 1) =~= cs.take(i).push(cs[i]));
    lemma_normal_of_push(cs.take(i), cs[i]);
}

proof fn lemma_scan_segments_plain(p: Seq<char>, cur: Seq<char>)
    requires
        !cur.contains('/'),
    ensures
        forall|i: int|
            0 <= i < scan_segments(p, cur).len() ==> is_plain_segment(
                #[trigger] scan_segments(p, cur)[i],
            ) && !scan_segments(p, cur)[i].contains('/'),
    decreases p.len(),
{
    let res = scan_segments(p, cur);
    if p.len() == 0 {
        assert forall|i: int| 0 <= i < res.len() implies is_plain_segment(#[trigger] res[i])
            && !res[i].contains('/') by {
            assert(res[i] == cur);
        }
    } else if p[0] == '/' {
        assert(!Seq::<char>::empty().contains('/'));
        lemma_scan_segments_plain(p.drop_first(), Seq::empty());
        let rest = scan_segments(p.drop_first(), Seq::empty());
        assert(res == kept(cur) + rest);
        assert forall|i: int| 0 <= i < res.len() implies is_plain_segment(#[trigger] res[i])
            && !res[i].contains('/') by {
            if i < kept(cur).len() {
                assert(res[i] == cur);
            } else {
                assert(res[i] == rest[i - kept(cur).len()]);
            }
        }
    } else {
        assert(!cur.push(p[0]).contains('/')) by {
            assert(forall|j: int|
                0 <= j < cur.push(p[0]).len() ==> #[trigger] cur.push(p[0])[j] != '/');
        }
        lemma_scan_segments_plain(p.drop_first(), cur.push(p[0]));
        let rest = scan_segments(p.drop_first(), cur.push(p[0]));
        assert forall|i: int| 0 <= i < res.len() implies is_plain_segment(#[trigger] res[i])
            && !res[i].contains('/') by {
            assert(res[i] == rest[i]);
        }
    }
}

/// Every segment the splitter keeps is a plain name, free of
/// separators: whatever the request path holds, a kept segment can
/// never point at a parent directory or carry a path of its own.
pub proof fn lemma_normal_segments_plain(p: Seq<char>)
    ensures
        forall|i: int|
            0 <= i < normal_segments(p).len() ==> is_plain_segment(
                #[trigger] normal_segments(p)[i],
            ) && !normal_segments(p)[i].contains('/'),
{
    assert(!Seq::<char>::empty().contains('/'));
    lemma_scan_segments_plain(p, Seq::empty());
}

/// Classifies one segment of a request path. An empty segment is no
/// component at all; `.` and `..` are the directory references; any
/// other name is `Normal`.
pub fn classify_segment(seg: &str) -> (r: Option<Component>)
    ensures
        (r is None) <==> seg@.len() == 0,
        (r == Some(Component::CurDir)) <==> (seg@ == "."@),
        (r == Some(Component::ParentDir)) <==> (seg@ == ".."@),
        r matches Some(c) ==> !(c is RootDir),
        r matches Some(Component::Normal(s)) ==> is_plain_segment(seg@) && s@ == seg@,
        is_plain_segment(seg@) ==> r is Some && !(r == Some(Component::CurDir)) && !(r
            == Some(Component::ParentDir)),
{
    proof {
        reveal_strlit(".");
        reveal_strlit("..");
    }
    let n = seg.unicode_len();
    if n == 0 {
        assert(seg@ != "."@ && seg@ != ".."@);
        None
    } else if n == 1 && seg.get_char(0) == '.' {
        proof {
            assert(seg@ =~= "."@);
        }
        Some(Component::CurDir)
    } else if n == 2 && seg.get_char(0) == '.' && seg.get_char(1) == '.' {
        proof {
            assert(seg@ =~= ".."@);
        }
        Some(Component::ParentDir)
    } else {
        proof {
            assert(seg@ != "."@);
            assert(seg@ != ".."@);
        }
        Some(Component::Normal(seg.to_owned()))
    }
}

/// Splits a request path into its components: a leading `/` becomes
/// `RootDir`, and every non-empty segment between separators is
/// classified. The plain names among the result are exactly the
/// path's `normal_segments`, and each is separator-free.
pub fn path_components(path: &str) -> (r: Vec<Component>)
    ensures
        normal_of(r@) == normal_segments(path@),
        forall|i: int|
            0 <= i < r@.len() && (#[trigger] r@[i]) is Normal ==> is_plain_segment(
                r@[i]->Normal_0@,
            ) && !r@[i]->Normal_0@.contains('/'),
{
    let n = path.unicode_len();
    let mut r: Vec<Component> = Vec::new();
    if n > 0 && path.get_char(0) == '/' {
        r.push(Component::RootDir);
        proof {
            assert(r@ =~= seq![Component::RootDir]);
            assert(r@.drop_first() =~= Seq::<Component>::empty());
            assert(normal_of(r@.drop_first()) =~= Seq::<Seq<char>>::empty());
            assert(normal_of(r@) =~= Seq::<Seq<char>>::empty());
        }
    }
    let ghost whole = path@;
    let mut i: usize = 0;
    let mut start: usize = 0;
    proof {
        assert(whole.skip(0) =~= whole);
        assert(whole.subrange(0, 0) =~= Seq::<char>::empty());
    }
    while i < n
        invariant
            start <= i <= n,
            n == whole.len(),
            path@ == whole,
            normal_of(r@) + scan_segments(whole.skip(i as int), whole.subrange(start as int, i as int))
                == normal_segments(whole),
            forall|j: int| start <= j < i ==> whole[j] != '/',
            forall|k: int|
                0 <= k < r@.len() && (#[trigger] r@[k]) is Normal ==> is_plain_segment(
                    r@[k]->Normal_0@,
                ) && !r@[k]->Normal_0@.contains('/'),
        decreases n - i,
    {
        let ghost cur = whole.subrange(start as int, i as int);
        proof {
            assert(whole.skip(i as int).len() > 0);
            assert(whole.skip(i as int)[0] == whole[i as int]);
            assert(whole.skip(i as int).drop_first() =~= whole.skip(i as int + 1));
        }
        let c = path.get_char(i);
        if c == '/' {
            let seg = path.substring_char(start, i);
            proof {
                assert(seg@ =~= cur);
                assert(!cur.contains('/')) by {
                    assert(forall|j: int| 0 <= j < cur.len() ==> #[trigger] cur[j] != '/');
                }
            }
            match classify_segment(seg) {
                Some(comp) => {
                    let ghost old_r = r@;
                    proof {
                        lemma_normal_of_push(old_r, comp);
                    }
                    r.push(comp);
                    proof {
                        assert(normal_of(r@) =~= normal_of(old_r) + kept(cur));
                    }
                },
                None => {
                    proof {
                        assert(kept(cur) =~= Seq::<Seq<char>>::empty());
                        assert(normal_of(r@) + kept(cur) =~= normal_of(r@));
                    }
                },
            }
            start = i + 1;
            i = i + 1;
            proof {
                assert(whole.subrange(start as int, i as int) =~= Seq::<char>::empty());
            }
        } else {
            i = i + 1;
            proof {
                assert(whole.subrange(start as int, i as int) =~= cur.push(whole[i - 1]));
            }
        }
    }
    let ghost cur = whole.subrange(start as int, i as int);
    proof {
        assert(whole.skip(n as int) =~= Seq::<char>::empty());
        assert(seq![cur] + Seq::<Seq<char>>::empty() =~= seq![cur]);
    }
    let seg = path.substring_char(start, n);
    proof {
        assert(seg@ =~= cur);
        assert(!cur.contains('/')) by {
            assert(forall|j: int| 0 <= j < cur.len() ==> #[trigger] cur[j] != '/');
        }
    }
    match classify_segment(seg) {
        Some(comp) => {
            let ghost old_r = r@;
            proof {
                lemma_normal_of_push(old_r, comp);
            }
            r.push(comp);
            proof {
                assert(normal_of(r@) =~= normal_of(old_r) + kept(cur));
            }
        },
        None => {
            proof {
                assert(kept(cur) =~= Seq::<Seq<char>>::empty());
                assert(normal_of(r@) + kept(cur) =~= normal_of(r@));
            }
        },
    }
    r
}

/// True for the components that carry a plain name; the resolver keeps
/// only these.
pub fn drop_non_string_comp(c: &Component) -> (r: bool)
    ensures
        r == (c is Normal),
{
    match *c {
        Component::Normal(_) => true,
        _ => false,
    }
}

/// The name a `Normal` component carries.
pub fn convert_string_com(c: &Component) -> (r: String)
    requires
        c is Normal,
    ensures
        r@ == c->Normal_0@,
{
    match c {
        Component::Normal(val) => val.clone(),
        _ => {
            proof {
                assert(false);
            }
            String::new()
        },
    }
}

/// `base` and `child` joined with a single separator: the separator is
/// omitted when `base` is empty or already ends in one.
pub open spec fn spec_join(base: Seq<char>, child: Seq<char>) -> Seq<char> {
    if base.len() == 0 {
        child
    } else if base.last() == '/' {
        base + child
    } else {
        base + "/"@ + child
    }
}

/// Joining a separator-free name onto a directory cannot escape it:
/// the directory is a prefix of the result, and past that prefix the
/// result holds at most one separator, immediately after the prefix.
/// The result therefore names an entry directly inside the directory.
pub proof fn lemma_join_confines(dir: Seq<char>, name: Seq<char>)
    requires
        !name.contains('/'),
    ensures
        spec_join(dir, name).take(dir.len() as int) == dir,
        forall|i: int|
            dir.len() <= i < spec_join(dir, name).len() && #[trigger] spec_join(dir, name)[i] == '/'
                ==> i == dir.len(),
{
    reveal_strlit("/");
    let fp = spec_join(dir, name);
    assert(forall|j: int| 0 <= j < name.len() ==> #[trigger] name[j] != '/');
    if dir.len() == 0 {
        assert(fp.take(0) =~= dir);
        assert(forall|i: int| 0 <= i < fp.len() ==> #[trigger] fp[i] == name[i]);
    } else if dir.last() == '/' {
        assert(fp.take(dir.len() as int) =~= dir);
        assert(forall|i: int|
            dir.len() <= i < fp.len() ==> #[trigger] fp[i] == name[i - dir.len()]);
    } else {
        assert("/"@.len() == 1);
        assert(fp.take(dir.len() as int) =~= dir);
        assert(forall|i: int|
            dir.len() < i < fp.len() ==> #[trigger] fp[i] == name[i - dir.len() - 1]);
    }
}

/// Joins a child name onto a base path, as `spec_join` describes.
pub fn join_path(base: &str, child: &str) -> (r: String)
    ensures
        r@ == spec_join(base@, child@),
{
    let n = base.unicode_len();
    if n == 0 {
        return child.to_owned();
    }
    let mut s = base.to_owned();
    if base.get_char(n - 1) != '/' {
        s.append("/");
    }
    s.append(child);
    s
}

} // verus!
