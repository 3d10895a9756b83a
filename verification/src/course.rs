//! The course page: course records, link filtering, and deduplication by
//! link target.

use vstd::prelude::*;
use crate::date::is_digit_char;
use crate::dom::{AnchorView, CourseAnchor, course_anchors_in, scan_course_anchors};
use crate::text::str_eq;

verus! {

/// One course of the home page: its external identifier (the link target)
/// and its visible title.
#[derive(Debug, Clone, PartialEq, Eq)]
pub struct Course {
    pub title: String,
    pub id: String,
}

/// Spec-level shape of a `Course`.
pub struct CourseView {
    pub title: Seq<char>,
    pub id: Seq<char>,
}

impl DeepView for Course {
    type V = CourseView;

    open spec fn deep_view(&self) -> CourseView {
        CourseView { title: self.title@, id: self.id@ }
    }
}

impl Course {
    /// The address of the course's page under `base_url`.
    pub fn url(&self, base_url: &str) -> (r: String)
        ensures
            r@ == base_url@ + "/"@ + self.id@,
    {
        let mut s = base_url.to_owned();
        s.append("/");
        s.append(self.id.as_str());
        s
    }
}

/// Whether an anchor looks like a real course link rather than navigation
/// chrome: its visible text starts with five decimal digits.
pub open spec fn qualifying_anchor(a: AnchorView) -> bool {
    &&& a.text.len() >= 5
    &&& forall|k: int| 0 <= k < 5 ==> is_digit_char(#[trigger] a.text[k])
}

/// The courses that `anchors[i..]` contribute, given the link targets
/// already seen: the first anchor of each distinct target decides whether a
/// course appears and under which title; later anchors of the same target
/// are dropped, whatever their text.
pub open spec fn courses_from(anchors: Seq<AnchorView>, i: int, seen: Set<Seq<char>>) -> Seq<
    CourseView,
>
    decreases anchors.len() - i,
{
    if i < 0 || i >= anchors.len() {
        Seq::empty()
    } else {
        let a = anchors[i];
        if seen.contains(a.href) {
            courses_from(anchors, i + 1, seen)
        } else if qualifying_anchor(a) {
            seq![CourseView { title: a.text, id: a.href }] + courses_from(
                anchors,
                i + 1,
                seen.insert(a.href),
            )
        } else {
            courses_from(anchors, i + 1, seen.insert(a.href))
        }
    }
}

/// The course list a sequence of anchors denotes: qualifying anchors only,
/// deduplicated by link target with the first occurrence winning, in
/// first-occurrence order.
pub open spec fn spec_courses(anchors: Seq<AnchorView>) -> Seq<CourseView> {
    courses_from(anchors, 0, Set::empty())
}

/// Whether `s` occurs among the strings of `seen`.
fn contains_str(seen: &Vec<String>, s: &String) -> (r: bool)
    ensures
        r == exists|k: int| 0 <= k < seen@.len() && (#[trigger] seen@[k])@ == s@,
{
    let n = seen.len();
    for j in 0..n
        invariant
            n == seen@.len(),
            forall|k: int| 0 <= k < j ==> (#[trigger] seen@[k])@ != s@,
    {
        if str_eq(seen[j].as_str(), s.as_str()) {
            return true;
        }
    }
    false
}

/// Whether an anchor's visible text starts with five decimal digits.
fn is_qualifying(a: &CourseAnchor) -> (r: bool)
    ensures
        r == qualifying_anchor(a.deep_view()),
{
    if a.text.as_str().unicode_len() < 5 {
        return false;
    }
    for k in 0..5usize
        invariant
            a.text@.len() >= 5,
            forall|t: int| 0 <= t < k ==> is_digit_char(#[trigger] a.text@[t]),
    {
        let c = a.text.as_str().get_char(k);
        if !('0' <= c && c <= '9') {
            return false;
        }
    }
    true
}

/// Assembles the course list from the scanned anchors of one home page:
/// qualifying anchors only, deduplicated by link target, first occurrence
/// winning, in first-occurrence order.
pub fn courses_of_anchors(anchors: &Vec<CourseAnchor>) -> (r: Vec<Course>)
    ensures
        r.deep_view() == spec_courses(anchors.deep_view()),
{
    let ghost avs = anchors.deep_view();
    let mut out: Vec<Course> = Vec::new();
    let mut seen: Vec<String> = Vec::new();
    let ghost mut sset = Set::<Seq<char>>::empty();
    proof {
        assert(Seq::<CourseView>::empty() + courses_from(avs, 0, sset) =~= courses_from(
            avs,
            0,
            sset,
        ));
    }
    let n = anchors.len();
    for i in 0..n
        invariant
            n == anchors@.len(),
            avs == anchors.deep_view(),
            forall|x: Seq<char>|
                #[trigger] sset.contains(x) <==> exists|k: int|
                    0 <= k < seen@.len() && (#[trigger] seen@[k])@ == x,
            spec_courses(avs) == out.deep_view() + courses_from(avs, i as int, sset),
    {
        let a = &anchors[i];
        assert(a.deep_view() == avs[i as int]);
        if !contains_str(&seen, &a.href) {
            assert(!sset.contains(a.href@));
            let ghost old_out = out.deep_view();
            let ghost old_sset = sset;
            let ghost old_seen = seen@;
            seen.push(a.href.clone());
            proof {
                sset = sset.insert(a.href@);
                assert forall|x: Seq<char>| #[trigger]
                    sset.contains(x) <==> exists|k: int|
                        0 <= k < seen@.len() && (#[trigger] seen@[k])@ == x by {
                    if sset.contains(x) {
                        if x == a.href@ {
                            assert(seen@[seen@.len() - 1]@ == x);
                        } else {
                            assert(old_sset.contains(x));
                            let k = choose|k: int|
                                0 <= k < old_seen.len() && (#[trigger] old_seen[k])@ == x;
                            assert(seen@[k]@ == x);
                        }
                    }
                    if exists|k: int| 0 <= k < seen@.len() && (#[trigger] seen@[k])@ == x {
                        let k = choose|k: int| 0 <= k < seen@.len() && (#[trigger] seen@[k])@ == x;
                        if k < seen@.len() - 1 {
                            assert(old_seen[k]@ == x);
                            assert(old_sset.contains(x));
                        } else {
                            assert(x == a.href@);
                        }
                    }
                }
            }
            if is_qualifying(a) {
                out.push(Course { title: a.text.clone(), id: a.href.clone() });
                proof {
                    let cv = CourseView { title: avs[i as int].text, id: avs[i as int].href };
                    assert(out.deep_view() =~= old_out.push(cv));
                    assert(courses_from(avs, i as int, old_sset) == seq![cv] + courses_from(
                        avs,
                        i + 1,
                        sset,
                    ));
                    assert(old_out + (seq![cv] + courses_from(avs, i + 1, sset)) =~= old_out.push(
                        cv,
                    ) + courses_from(avs, i + 1, sset));
                }
            } else {
                assert(courses_from(avs, i as int, old_sset) == courses_from(avs, i + 1, sset));
            }
        } else {
            assert(sset.contains(a.href@));
            assert(courses_from(avs, i as int, sset) == courses_from(avs, i + 1, sset));
        }
    }
    proof {
        assert(courses_from(avs, n as int, sset) =~= Seq::<CourseView>::empty());
        assert(out.deep_view() + Seq::<CourseView>::empty() =~= out.deep_view());
    }
    out
}

/// Extracts the course list of one home page.
pub fn extract_courses(html: &str) -> (r: Vec<Course>)
    ensures
        r.deep_view() == spec_courses(course_anchors_in(html@)),
{
    let anchors = scan_course_anchors(html);
    courses_of_anchors(&anchors)
}

/// Helper for the uniqueness and first-title laws, generalised over the
/// suffix position and the targets already seen.
proof fn lemma_courses_from_dedup(anchors: Seq<AnchorView>, i: int, seen: Set<Seq<char>>)
    ensures
        forall|t: int|
            0 <= t < courses_from(anchors, i, seen).len() ==> !seen.contains(
                (#[trigger] courses_from(anchors, i, seen)[t]).id,
            ),
        forall|t: int, u: int|
            0 <= t < u < courses_from(anchors, i, seen).len() ==> courses_from(anchors, i, seen)[t].id
                != courses_from(anchors, i, seen)[u].id,
        forall|t: int|
            #![trigger courses_from(anchors, i, seen)[t]]
            0 <= t < courses_from(anchors, i, seen).len() ==> exists|k: int|
                {
                    &&& i <= k < anchors.len()
                    &&& (#[trigger] anchors[k]).href == courses_from(anchors, i, seen)[t].id
                    &&& anchors[k].text == courses_from(anchors, i, seen)[t].title
                    &&& qualifying_anchor(anchors[k])
                    &&& forall|m: int|
                        i <= m < k ==> (#[trigger] anchors[m]).href != courses_from(
                            anchors,
                            i,
                            seen,
                        )[t].id
                },
    decreases anchors.len() - i,
{
    if i < 0 || i >= anchors.len() {
    } else {
        let a = anchors[i];
        let r = courses_from(anchors, i, seen);
        if seen.contains(a.href) {
            lemma_courses_from_dedup(anchors, i + 1, seen);
            let rest = courses_from(anchors, i + 1, seen);
            assert(r == rest);
            assert forall|t: int| 0 <= t < r.len() implies !seen.contains(
                (#[trigger] r[t]).id,
            ) && (exists|k: int|
                {
                    &&& i <= k < anchors.len()
                    &&& (#[trigger] anchors[k]).href == r[t].id
                    &&& anchors[k].text == r[t].title
                    &&& qualifying_anchor(anchors[k])
                    &&& forall|m: int| i <= m < k ==> (#[trigger] anchors[m]).href != r[t].id
                }) by {
                assert(rest[t] == r[t]);
                assert(!seen.contains(rest[t].id));
                let k = choose|k: int|
                    {
                        &&& i + 1 <= k < anchors.len()
                        &&& (#[trigger] anchors[k]).href == rest[t].id
                        &&& anchors[k].text == rest[t].title
                        &&& qualifying_anchor(anchors[k])
                        &&& forall|m: int| i + 1 <= m < k ==> (#[trigger] anchors[m]).href != rest[t].id
                    };
                assert(anchors[i].href != r[t].id);
                assert(forall|m: int| i <= m < k ==> (#[trigger] anchors[m]).href != r[t].id);
            }
            assert forall|t: int, u: int| 0 <= t < u < r.len() implies (#[trigger] r[t]).id != (
            #[trigger] r[u]).id by {
                assert(rest[t].id != rest[u].id);
            }
        } else {
            let seen2 = seen.insert(a.href);
            lemma_courses_from_dedup(anchors, i + 1, seen2);
            let rest = courses_from(anchors, i + 1, seen2);
            let cv = CourseView { title: a.text, id: a.href };
            if qualifying_anchor(a) {
                assert(r == seq![cv] + rest);
                assert(r[0] == cv);
                assert forall|t: int| 0 <= t < r.len() implies !seen.contains(
                    (#[trigger] r[t]).id,
                ) && (exists|k: int|
                    {
                        &&& i <= k < anchors.len()
                        &&& (#[trigger] anchors[k]).href == r[t].id
                        &&& anchors[k].text == r[t].title
                        &&& qualifying_anchor(anchors[k])
                        &&& forall|m: int| i <= m < k ==> (#[trigger] anchors[m]).href != r[t].id
                    }) by {
                    if t == 0 {
                        assert(anchors[i].href == r[0].id);
                        assert(anchors[i].text == r[0].title);
                        assert(forall|m: int| i <= m < i ==> (#[trigger] anchors[m]).href != r[0].id);
                    } else {
                        assert(r[t] == rest[t - 1]);
                        assert(!seen2.contains(rest[t - 1].id));
                        let k = choose|k: int|
                            {
                                &&& i + 1 <= k < anchors.len()
                                &&& (#[trigger] anchors[k]).href == rest[t - 1].id
                                &&& anchors[k].text == rest[t - 1].title
                                &&& qualifying_anchor(anchors[k])
                                &&& forall|m: int|
                                    i + 1 <= m < k ==> (#[trigger] anchors[m]).href != rest[t - 1].id
                            };
                        assert(anchors[i].href != r[t].id);
                        assert(forall|m: int| i <= m < k ==> (#[trigger] anchors[m]).href != r[t].id);
                    }
                }
                assert forall|t: int, u: int| 0 <= t < u < r.len() implies (#[trigger] r[t]).id
                    != (#[trigger] r[u]).id by {
                    assert(r[u] == rest[u - 1]);
                    assert(!seen2.contains(rest[u - 1].id));
                    if t == 0 {
                        assert(r[t].id == a.href);
                        assert(seen2.contains(a.href));
                    } else {
                        assert(r[t] == rest[t - 1]);
                        assert(rest[t - 1].id != rest[u - 1].id);
                    }
                }
            } else {
                assert(r == rest);
                assert forall|t: int| 0 <= t < r.len() implies !seen.contains(
                    (#[trigger] r[t]).id,
                ) && (exists|k: int|
                    {
                        &&& i <= k < anchors.len()
                        &&& (#[trigger] anchors[k]).href == r[t].id
                        &&& anchors[k].text == r[t].title
                        &&& qualifying_anchor(anchors[k])
                        &&& forall|m: int| i <= m < k ==> (#[trigger] anchors[m]).href != r[t].id
                    }) by {
                    assert(rest[t] == r[t]);
                    assert(!seen2.contains(rest[t].id));
                    let k = choose|k: int|
                        {
                            &&& i + 1 <= k < anchors.len()
                            &&& (#[trigger] anchors[k]).href == rest[t].id
                            &&& anchors[k].text == rest[t].title
                            &&& qualifying_anchor(anchors[k])
                            &&& forall|m: int|
                                i + 1 <= m < k ==> (#[trigger] anchors[m]).href != rest[t].id
                        };
                    assert(anchors[i].href != r[t].id);
                    assert(forall|m: int| i <= m < k ==> (#[trigger] anchors[m]).href != r[t].id);
                }
                assert forall|t: int, u: int| 0 <= t < u < r.len() implies (#[trigger] r[t]).id
                    != (#[trigger] r[u]).id by {
                    assert(rest[t].id != rest[u].id);
                }
            }
        }
    }
}

/// Law: deduplication leaves exactly one course per link target — no two
/// extracted courses share an identifier.
pub proof fn lemma_courses_unique(anchors: Seq<AnchorView>)
    ensures
        forall|t: int, u: int|
            0 <= t < u < spec_courses(anchors).len() ==> spec_courses(anchors)[t].id
                != spec_courses(anchors)[u].id,
{
    lemma_courses_from_dedup(anchors, 0, Set::empty());
}

/// Law: every extracted course comes from the first anchor bearing its link
/// target — its title is that anchor's text, that anchor qualifies, and no
/// earlier anchor shares the target.
pub proof fn lemma_courses_first_title(anchors: Seq<AnchorView>)
    ensures
        forall|t: int|
            #![trigger spec_courses(anchors)[t]]
            0 <= t < spec_courses(anchors).len() ==> exists|k: int|
                {
                    &&& 0 <= k < anchors.len()
                    &&& (#[trigger] anchors[k]).href == spec_courses(anchors)[t].id
                    &&& anchors[k].text == spec_courses(anchors)[t].title
                    &&& qualifying_anchor(anchors[k])
                    &&& forall|m: int|
                        0 <= m < k ==> (#[trigger] anchors[m]).href != spec_courses(anchors)[t].id
                },
{
    lemma_courses_from_dedup(anchors, 0, Set::empty());
}

} // verus!
