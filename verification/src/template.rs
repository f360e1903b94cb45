//! Remote-path template engine: derives `{name}`, `{stem}`, `{ext}` and
//! `{date}` from a local path and the current date, and substitutes them
//! into a template in a single left-to-right pass, so that substituted
//! text is never re-scanned for further placeholders.

use vstd::prelude::*;

use crate::text::{
    has_at, last_index_of, matches_at, rfind_char, str_eq, trim_end_char, trim_end_sep,
    lemma_last_index_of_bounds,
};

verus! {

pub open spec fn ph_name() -> Seq<char> {
    seq!['{', 'n', 'a', 'm', 'e', '}']
}

pub open spec fn ph_stem() -> Seq<char> {
    seq!['{', 's', 't', 'e', 'm', '}']
}

pub open spec fn ph_ext() -> Seq<char> {
    seq!['{', 'e', 'x', 't', '}']
}

pub open spec fn ph_date() -> Seq<char> {
    seq!['{', 'd', 'a', 't', 'e', '}']
}

/// Name used when a path has no usable final component.
pub open spec fn fallback_name() -> Seq<char> {
    seq!['f', 'i', 'l', 'e']
}

/// The final component of a path: what stands after the last `/` once
/// trailing `/` runs are dropped, or `file` when that leaves nothing
/// usable (an empty string, `.` or `..`).
pub open spec fn spec_file_name(p: Seq<char>) -> Seq<char> {
    let t = trim_end_sep(p, '/');
    let cand = t.skip(last_index_of(t, '/') + 1);
    if cand.len() == 0 || cand == seq!['.'] || cand == seq!['.', '.'] {
        fallback_name()
    } else {
        cand
    }
}

/// The file name up to its last `.`, the whole name when there is no `.`
/// past the first character (a leading `.` marks a hidden file, not an
/// extension).
pub open spec fn spec_stem_of(name: Seq<char>) -> Seq<char> {
    let j = last_index_of(name, '.');
    if j <= 0 {
        name
    } else {
        name.take(j)
    }
}

/// What stands after the file name's last `.`, empty when there is no `.`
/// past the first character.
pub open spec fn spec_ext_of(name: Seq<char>) -> Seq<char> {
    let j = last_index_of(name, '.');
    if j <= 0 {
        Seq::<char>::empty()
    } else {
        name.skip(j + 1)
    }
}

pub open spec fn spec_file_stem(p: Seq<char>) -> Seq<char> {
    spec_stem_of(spec_file_name(p))
}

pub open spec fn spec_file_ext(p: Seq<char>) -> Seq<char> {
    spec_ext_of(spec_file_name(p))
}

/// One left-to-right pass over the template: each recognized placeholder
/// occurrence is replaced independently and exactly once, unrecognized
/// text is kept verbatim, and replacement text is never re-scanned.
pub open spec fn spec_render(
    t: Seq<char>,
    name: Seq<char>,
    stem: Seq<char>,
    ext: Seq<char>,
    date: Seq<char>,
) -> Seq<char>
    decreases t.len(),
{
    if t.len() == 0 {
        t
    } else if matches_at(t, 0, ph_name()) {
        name + spec_render(t.skip(6), name, stem, ext, date)
    } else if matches_at(t, 0, ph_stem()) {
        stem + spec_render(t.skip(6), name, stem, ext, date)
    } else if matches_at(t, 0, ph_ext()) {
        ext + spec_render(t.skip(5), name, stem, ext, date)
    } else if matches_at(t, 0, ph_date()) {
        date + spec_render(t.skip(6), name, stem, ext, date)
    } else {
        seq![t[0]] + spec_render(t.skip(1), name, stem, ext, date)
    }
}

proof fn lemma_placeholder_literals()
    ensures
        "{name}"@ == ph_name(),
        "{stem}"@ == ph_stem(),
        "{ext}"@ == ph_ext(),
        "{date}"@ == ph_date(),
{
    reveal_strlit("{name}");
    reveal_strlit("{stem}");
    reveal_strlit("{ext}");
    reveal_strlit("{date}");
    assert("{name}"@ =~= ph_name());
    assert("{stem}"@ =~= ph_stem());
    assert("{ext}"@ =~= ph_ext());
    assert("{date}"@ =~= ph_date());
}

proof fn lemma_matches_at_skip(s: Seq<char>, i: int, pat: Seq<char>)
    requires
        0 <= i <= s.len(),
    ensures
        matches_at(s, i, pat) == matches_at(s.skip(i), 0, pat),
{
    if i + pat.len() <= s.len() {
        assert(s.skip(i).subrange(0, pat.len() as int) =~= s.subrange(i, i + pat.len() as int));
    }
}

proof fn lemma_render_step(t: Seq<char>, i: int, nm: Seq<char>, st: Seq<char>, ex: Seq<char>, dt: Seq<char>)
    requires
        0 <= i <= t.len(),
    ensures
        matches_at(t, i, ph_name()) ==> spec_render(t.skip(i), nm, st, ex, dt) == nm
            + spec_render(t.skip(i + 6), nm, st, ex, dt),
        !matches_at(t, i, ph_name()) && matches_at(t, i, ph_stem()) ==> spec_render(
            t.skip(i),
            nm,
            st,
            ex,
            dt,
        ) == st + spec_render(t.skip(i + 6), nm, st, ex, dt),
        !matches_at(t, i, ph_name()) && !matches_at(t, i, ph_stem()) && matches_at(t, i, ph_ext())
            ==> spec_render(t.skip(i), nm, st, ex, dt) == ex + spec_render(
            t.skip(i + 5),
            nm,
            st,
            ex,
            dt,
        ),
        !matches_at(t, i, ph_name()) && !matches_at(t, i, ph_stem()) && !matches_at(t, i, ph_ext())
            && matches_at(t, i, ph_date()) ==> spec_render(t.skip(i), nm, st, ex, dt) == dt
            + spec_render(t.skip(i + 6), nm, st, ex, dt),
        !matches_at(t, i, ph_name()) && !matches_at(t, i, ph_stem()) && !matches_at(t, i, ph_ext())
            && !matches_at(t, i, ph_date()) && i < t.len() ==> spec_render(t.skip(i), nm, st, ex, dt)
            == seq![t[i]] + spec_render(t.skip(i + 1), nm, st, ex, dt),
{
    lemma_matches_at_skip(t, i, ph_name());
    lemma_matches_at_skip(t, i, ph_stem());
    lemma_matches_at_skip(t, i, ph_ext());
    lemma_matches_at_skip(t, i, ph_date());
    if matches_at(t, i, ph_name()) || matches_at(t, i, ph_stem()) || matches_at(t, i, ph_date()) {
        assert(t.skip(i).skip(6) =~= t.skip(i + 6));
    } else if matches_at(t, i, ph_ext()) {
        assert(t.skip(i).skip(5) =~= t.skip(i + 5));
    } else if i < t.len() {
        assert(t.skip(i).skip(1) =~= t.skip(i + 1));
        assert(t.skip(i)[0] == t[i]);
    }
}

/// The placeholder values for one file: its full name, its stem, its
/// extension, and the calendar date of the render.
pub struct TemplateContext {
    pub name: String,
    pub stem: String,
    pub ext: String,
    pub date: String,
}

/// The final component of `path`, with the `file` fallback.
pub fn file_name_of(path: &str) -> (r: String)
    ensures
        r@ == spec_file_name(path@),
{
    let t = trim_end_char(path, '/');
    let n = t.unicode_len();
    proof {
        lemma_last_index_of_bounds(t@, '/');
    }
    let cand: &str = match rfind_char(t, '/') {
        Some(i) => t.substring_char(i + 1, n),
        None => t,
    };
    proof {
        assert(t@.skip(0) =~= t@);
        reveal_strlit(".");
        reveal_strlit("..");
        reveal_strlit("file");
        assert("."@ =~= seq!['.']);
        assert(".."@ =~= seq!['.', '.']);
        assert("file"@ =~= fallback_name());
    }
    if cand.is_empty() || str_eq(cand, ".") || str_eq(cand, "..") {
        String::from_str("file")
    } else {
        String::from_str(cand)
    }
}

/// Splits a file name into stem and extension at its last `.`.
pub fn split_stem_ext(name: &str) -> (r: (String, String))
    ensures
        r.0@ == spec_stem_of(name@),
        r.1@ == spec_ext_of(name@),
{
    let n = name.unicode_len();
    proof {
        lemma_last_index_of_bounds(name@, '.');
    }
    match rfind_char(name, '.') {
        Some(i) => {
            if i > 0 {
                proof {
                    assert(name@.take(i as int) =~= name@.subrange(0, i as int));
                }
                (
                    String::from_str(name.substring_char(0, i)),
                    String::from_str(name.substring_char(i + 1, n)),
                )
            } else {
                (String::from_str(name), String::new())
            }
        },
        None => (String::from_str(name), String::new()),
    }
}

/// Relies on chrono's `Local::now` and its `%Y%m%d` date formatting: the
/// result depends on the clock and the machine's time zone, so nothing is
/// stated of it.
#[verifier::external_body]
fn current_date_string() -> String {
    chrono::Local::now().format("%Y%m%d").to_string()
}

impl TemplateContext {
    /// The context for `path` on the given date.
    pub fn with_date(path: &str, date: String) -> (r: Self)
        ensures
            r.name@ == spec_file_name(path@),
            r.stem@ == spec_file_stem(path@),
            r.ext@ == spec_file_ext(path@),
            r.date@ == date@,
    {
        let name = file_name_of(path);
        let (stem, ext) = split_stem_ext(name.as_str());
        TemplateContext { name, stem, ext, date }
    }

    /// The context for `path` on the current local date.
    pub fn new(path: &str) -> (r: Self)
        ensures
            r.name@ == spec_file_name(path@),
            r.stem@ == spec_file_stem(path@),
            r.ext@ == spec_file_ext(path@),
    {
        let date = current_date_string();
        Self::with_date(path, date)
    }

    /// Substitutes the context's fields for the recognized placeholders,
    /// in one pass.
    pub fn render(&self, template: &str) -> (r: String)
        ensures
            r@ == spec_render(template@, self.name@, self.stem@, self.ext@, self.date@),
    {
        let n = template.unicode_len();
        let mut out = String::new();
        let mut i: usize = 0;
        proof {
            assert(template@.skip(0) =~= template@);
            assert(out@ + spec_render(template@, self.name@, self.stem@, self.ext@, self.date@)
                =~= spec_render(template@, self.name@, self.stem@, self.ext@, self.date@));
        }
        while i < n
            invariant
                n == template@.len(),
                i <= n,
                out@ + spec_render(
                    template@.skip(i as int),
                    self.name@,
                    self.stem@,
                    self.ext@,
                    self.date@,
                ) == spec_render(template@, self.name@, self.stem@, self.ext@, self.date@),
            decreases n - i,
        {
            proof {
                lemma_placeholder_literals();
                lemma_render_step(
                    template@,
                    i as int,
                    self.name@,
                    self.stem@,
                    self.ext@,
                    self.date@,
                );
            }
            if has_at(template, i, "{name}") {
                proof {
                    assert((out@ + self.name@) + spec_render(
                        template@.skip(i as int + 6),
                        self.name@,
                        self.stem@,
                        self.ext@,
                        self.date@,
                    ) =~= out@ + (self.name@ + spec_render(
                        template@.skip(i as int + 6),
                        self.name@,
                        self.stem@,
                        self.ext@,
                        self.date@,
                    )));
                }
                out.append(self.name.as_str());
                i = i + 6;
            } else if has_at(template, i, "{stem}") {
                proof {
                    assert((out@ + self.stem@) + spec_render(
                        template@.skip(i as int + 6),
                        self.name@,
                        self.stem@,
                        self.ext@,
                        self.date@,
                    ) =~= out@ + (self.stem@ + spec_render(
                        template@.skip(i as int + 6),
                        self.name@,
                        self.stem@,
                        self.ext@,
                        self.date@,
                    )));
                }
                out.append(self.stem.as_str());
                i = i + 6;
            } else if has_at(template, i, "{ext}") {
                proof {
                    assert((out@ + self.ext@) + spec_render(
                        template@.skip(i as int + 5),
                        self.name@,
                        self.stem@,
                        self.ext@,
                        self.date@,
                    ) =~= out@ + (self.ext@ + spec_render(
                        template@.skip(i as int + 5),
                        self.name@,
                        self.stem@,
                        self.ext@,
                        self.date@,
                    )));
                }
                out.append(self.ext.as_str());
                i = i + 5;
            } else if has_at(template, i, "{date}") {
                proof {
                    assert((out@ + self.date@) + spec_render(
                        template@.skip(i as int + 6),
                        self.name@,
                        self.stem@,
                        self.ext@,
                        self.date@,
                    ) =~= out@ + (self.date@ + spec_render(
                        template@.skip(i as int + 6),
                        self.name@,
                        self.stem@,
                        self.ext@,
                        self.date@,
                    )));
                }
                out.append(self.date.as_str());
                i = i + 6;
            } else {
                let piece = template.substring_char(i, i + 1);
                proof {
                    assert(piece@ =~= seq![template@[i as int]]);
                    assert((out@ + piece@) + spec_render(
                        template@.skip(i as int + 1),
                        self.name@,
                        self.stem@,
                        self.ext@,
                        self.date@,
                    ) =~= out@ + (piece@ + spec_render(
                        template@.skip(i as int + 1),
                        self.name@,
                        self.stem@,
                        self.ext@,
                        self.date@,
                    )));
                }
                out.append(piece);
                i = i + 1;
            }
        }
        proof {
            assert(template@.skip(n as int) =~= Seq::<char>::empty());
            assert(out@ + Seq::<char>::empty() =~= out@);
        }
        out
    }
}

/// Rendering is a pure function of the template and the four context
/// fields: two contexts that agree on name, stem, extension and date
/// render every template identically.
pub proof fn lemma_render_pure(t: Seq<char>, c1: TemplateContext, c2: TemplateContext)
    requires
        c1.name@ == c2.name@,
        c1.stem@ == c2.stem@,
        c1.ext@ == c2.ext@,
        c1.date@ == c2.date@,
    ensures
        spec_render(t, c1.name@, c1.stem@, c1.ext@, c1.date@) == spec_render(
            t,
            c2.name@,
            c2.stem@,
            c2.ext@,
            c2.date@,
        ),
{
}

/// Renders the remote path for `path`: the template with placeholders
/// substituted on the current date, or the bare file name when no
/// template is configured.
pub fn render_filename(template: Option<&str>, path: &str) -> (r: String)
    ensures
        template is None ==> r@ == spec_file_name(path@),
        template matches Some(t) ==> exists|d: Seq<char>|
            r@ == spec_render(t@, spec_file_name(path@), spec_file_stem(path@), spec_file_ext(path@), d),
{
    let ctx = TemplateContext::new(path);
    match template {
        Some(t) => {
            let r = ctx.render(t);
            proof {
                assert(r@ == spec_render(
                    t@,
                    spec_file_name(path@),
                    spec_file_stem(path@),
                    spec_file_ext(path@),
                    ctx.date@,
                ));
            }
            r
        },
        None => ctx.name,
    }
}

} // verus!
