//! The section splitter: scans a whole document for top-level `#marker`
//! sections.  Each marker's payload is the verbatim substring, whitespace
//! and comments included, up to the next `#` or the end of input.  Before
//! the first marker only whitespace and `//` comments may stand.

use vstd::prelude::*;

use crate::diag::{DiagKind, Diagnostic, MDiag};
use crate::lexer::{is_ident_char, is_ws_char};
use crate::text::push_char;

verus! {

/// One raw section: the marker's name and span, and its verbatim body.
#[derive(Debug, PartialEq)]
pub struct RawSection {
    pub name: String,
    /// Offset of the `#`.
    pub start: usize,
    /// Offset just past the marker name.
    pub name_end: usize,
    pub body: String,
    pub body_start: usize,
}

pub struct MSection {
    pub name: Seq<char>,
    pub start: int,
    pub name_end: int,
    pub body: Seq<char>,
    pub body_start: int,
}

impl View for RawSection {
    type V = MSection;

    open spec fn view(&self) -> MSection {
        MSection {
            name: self.name@,
            start: self.start as int,
            name_end: self.name_end as int,
            body: self.body@,
            body_start: self.body_start as int,
        }
    }
}

/// Text stands before the first marker.
pub open spec fn m_lead(at: int) -> MDiag {
    MDiag {
        kind: DiagKind::UnexpectedToken,
        start: at,
        end: at + 1,
        expected: seq!["'#'"@],
        found: "text"@,
    }
}

/// A `#` without a marker name after it.
pub open spec fn m_empty_marker(at: int) -> MDiag {
    MDiag {
        kind: DiagKind::UnexpectedToken,
        start: at,
        end: at + 1,
        expected: seq!["section name"@],
        found: "'#'"@,
    }
}

/// Model of the splitter's state between characters.
pub enum MSplitSt {
    Lead,
    LeadSlash { at: int },
    LeadComment,
    Marker { start: int, name: Seq<char> },
    Body { start: int, name: Seq<char>, name_end: int, body_start: int, body: Seq<char> },
}

pub open spec fn split_rank(st: MSplitSt) -> int {
    match st {
        MSplitSt::Marker { .. } => 1,
        _ => 0,
    }
}

pub open spec fn prepend_sec(sec: MSection, r: Result<Seq<MSection>, MDiag>) -> Result<
    Seq<MSection>,
    MDiag,
> {
    match r {
        Ok(ss) => Ok(seq![sec] + ss),
        Err(d) => Err(d),
    }
}

/// The sections found from character `i` onward, starting in state `st`.
pub open spec fn split_sm(s: Seq<char>, i: int, st: MSplitSt) -> Result<Seq<MSection>, MDiag>
    decreases s.len() - i, split_rank(st),
{
    if i < 0 || i > s.len() {
        Err(m_lead(-1))
    } else if i == s.len() {
        match st {
            MSplitSt::Lead => Ok(Seq::empty()),
            MSplitSt::LeadComment => Ok(Seq::empty()),
            MSplitSt::LeadSlash { at } => Err(m_lead(at)),
            MSplitSt::Marker { start, name } => {
                if name.len() == 0 {
                    Err(m_empty_marker(start))
                } else {
                    Ok(
                        seq![
                            MSection {
                                name,
                                start,
                                name_end: i,
                                body: Seq::empty(),
                                body_start: i,
                            },
                        ],
                    )
                }
            },
            MSplitSt::Body { start, name, name_end, body_start, body } => Ok(
                seq![MSection { name, start, name_end, body, body_start }],
            ),
        }
    } else {
        let c = s[i];
        match st {
            MSplitSt::Lead => {
                if is_ws_char(c) {
                    split_sm(s, i + 1, MSplitSt::Lead)
                } else if c == '/' {
                    split_sm(s, i + 1, MSplitSt::LeadSlash { at: i })
                } else if c == '#' {
                    split_sm(s, i + 1, MSplitSt::Marker { start: i, name: Seq::empty() })
                } else {
                    Err(m_lead(i))
                }
            },
            MSplitSt::LeadSlash { at } => {
                if c == '/' {
                    split_sm(s, i + 1, MSplitSt::LeadComment)
                } else {
                    Err(m_lead(at))
                }
            },
            MSplitSt::LeadComment => {
                if c == '\n' {
                    split_sm(s, i + 1, MSplitSt::Lead)
                } else {
                    split_sm(s, i + 1, MSplitSt::LeadComment)
                }
            },
            MSplitSt::Marker { start, name } => {
                if is_ident_char(c) {
                    split_sm(s, i + 1, MSplitSt::Marker { start, name: name.push(c) })
                } else if name.len() == 0 {
                    Err(m_empty_marker(start))
                } else {
                    split_sm(
                        s,
                        i,
                        MSplitSt::Body {
                            start,
                            name,
                            name_end: i,
                            body_start: i,
                            body: Seq::empty(),
                        },
                    )
                }
            },
            MSplitSt::Body { start, name, name_end, body_start, body } => {
                if c == '#' {
                    prepend_sec(
                        MSection { name, start, name_end, body, body_start },
                        split_sm(s, i + 1, MSplitSt::Marker { start: i, name: Seq::empty() }),
                    )
                } else {
                    split_sm(
                        s,
                        i + 1,
                        MSplitSt::Body { start, name, name_end, body_start, body: body.push(c) },
                    )
                }
            },
        }
    }
}

/// The whole document's sections, or the first diagnostic.
pub open spec fn spec_split(s: Seq<char>) -> Result<Seq<MSection>, MDiag> {
    split_sm(s, 0, MSplitSt::Lead)
}

pub open spec fn secs_model(ss: Seq<RawSection>) -> Seq<MSection> {
    ss.map_values(|x: RawSection| x@)
}

pub open spec fn glue_secs(pre: Seq<MSection>, r: Result<Seq<MSection>, MDiag>) -> Result<
    Seq<MSection>,
    MDiag,
> {
    match r {
        Ok(ss) => Ok(pre + ss),
        Err(d) => Err(d),
    }
}

proof fn lemma_glue_secs_prepend(pre: Seq<MSection>, sec: MSection, r: Result<Seq<MSection>, MDiag>)
    ensures
        glue_secs(pre, prepend_sec(sec, r)) == glue_secs(pre.push(sec), r),
{
    match r {
        Ok(ss) => {
            assert(pre + (seq![sec] + ss) =~= pre.push(sec) + ss);
        },
        Err(_) => {},
    }
}

proof fn lemma_secs_model_push(ss: Seq<RawSection>, x: RawSection)
    ensures
        secs_model(ss.push(x)) == secs_model(ss).push(x@),
{
    assert(secs_model(ss.push(x)) =~= secs_model(ss).push(x@));
}

/// Bodies never outgrow the document, so offsets can be rebased safely.
pub open spec fn sec_bounds(sec: MSection, n: int) -> bool {
    &&& 0 <= sec.start <= sec.name_end <= n
    &&& 0 <= sec.body_start <= n
    &&& sec.body_start + sec.body.len() <= n
}

pub open spec fn secs_bounds(ss: Seq<MSection>, n: int) -> bool {
    forall|j: int| 0 <= j < ss.len() ==> sec_bounds(#[trigger] ss[j], n)
}

enum SplitSt {
    Lead,
    LeadSlash { at: usize },
    LeadComment,
    Marker { start: usize, name: String },
    Body { start: usize, name: String, name_end: usize, body_start: usize, body: String },
}

spec fn split_st_model(st: &SplitSt) -> MSplitSt {
    match st {
        SplitSt::Lead => MSplitSt::Lead,
        SplitSt::LeadSlash { at } => MSplitSt::LeadSlash { at: *at as int },
        SplitSt::LeadComment => MSplitSt::LeadComment,
        SplitSt::Marker { start, name } => MSplitSt::Marker { start: *start as int, name: name@ },
        SplitSt::Body { start, name, name_end, body_start, body } => MSplitSt::Body {
            start: *start as int,
            name: name@,
            name_end: *name_end as int,
            body_start: *body_start as int,
            body: body@,
        },
    }
}

/// Offsets the state carries stay within the scanned prefix.
spec fn split_st_bounds(st: MSplitSt, i: int) -> bool {
    match st {
        MSplitSt::Lead => true,
        MSplitSt::LeadComment => true,
        MSplitSt::LeadSlash { at } => 0 <= at < i,
        MSplitSt::Marker { start, .. } => 0 <= start < i,
        MSplitSt::Body { start, name_end, body_start, body, .. } => 0 <= start < name_end
            <= body_start && body_start + body.len() <= i,
    }
}

proof fn lemma_sec_bounds_push(ss: Seq<MSection>, sec: MSection, n: int)
    requires
        secs_bounds(ss, n),
        sec_bounds(sec, n),
    ensures
        secs_bounds(ss.push(sec), n),
{
    assert forall|j: int| 0 <= j < ss.push(sec).len() implies sec_bounds(
        #[trigger] ss.push(sec)[j],
        n,
    ) by {
        if j < ss.len() {
            assert(sec_bounds(ss[j], n));
        } else {
            assert(ss.push(sec)[j] == sec);
        }
    }
}

/// Splits the whole document, mirroring [`spec_split`].
pub fn split(input: &str) -> (r: Result<Vec<RawSection>, Diagnostic>)
    ensures
        match (r, spec_split(input@)) {
            (Ok(ss), Ok(mss)) => secs_model(ss@) == mss && secs_bounds(mss, input@.len() as int),
            (Err(d), Err(md)) => d@ == md,
            _ => false,
        },
{
    let n = input.unicode_len();
    let mut out: Vec<RawSection> = Vec::new();
    let mut st = SplitSt::Lead;
    let mut i: usize = 0;
    proof {
        assert(secs_model(out@) =~= Seq::<MSection>::empty());
        assert(glue_secs(secs_model(out@), split_sm(input@, 0, MSplitSt::Lead)) == spec_split(
            input@,
        ));
    }
    while i < n
        invariant
            n == input@.len(),
            i <= n,
            split_st_bounds(split_st_model(&st), i as int),
            glue_secs(secs_model(out@), split_sm(input@, i as int, split_st_model(&st)))
                == spec_split(input@),
            secs_bounds(secs_model(out@), n as int),
        decreases n - i, split_rank(split_st_model(&st)),
    {
        let ghost pre = secs_model(out@);
        let c = input.get_char(i);
        match st {
            SplitSt::Lead => {
                st = SplitSt::Lead;
                if crate::split::ws_char_exec(c) {
                    i += 1;
                } else if c == '/' {
                    st = SplitSt::LeadSlash { at: i };
                    i += 1;
                } else if c == '#' {
                    let name = String::new();
                    proof {
                        assert(name@ =~= Seq::<char>::empty());
                    }
                    st = SplitSt::Marker { start: i, name };
                    i += 1;
                } else {
                    return Err(lead_diag(i));
                }
            },
            SplitSt::LeadSlash { at } => {
                if c == '/' {
                    st = SplitSt::LeadComment;
                    i += 1;
                } else {
                    return Err(lead_diag(at));
                }
            },
            SplitSt::LeadComment => {
                st = SplitSt::LeadComment;
                if c == '\n' {
                    st = SplitSt::Lead;
                }
                i += 1;
            },
            SplitSt::Marker { start, mut name } => {
                if crate::split::ident_char_exec(c) {
                    push_char(&mut name, c);
                    st = SplitSt::Marker { start, name };
                    i += 1;
                } else if name.unicode_len() == 0 {
                    return Err(empty_marker_diag(start));
                } else {
                    let body = String::new();
                    proof {
                        assert(body@ =~= Seq::<char>::empty());
                    }
                    st = SplitSt::Body { start, name, name_end: i, body_start: i, body };
                }
            },
            SplitSt::Body { start, name, name_end, body_start, mut body } => {
                if c == '#' {
                    let sec = RawSection { name, start, name_end, body, body_start };
                    proof {
                        lemma_glue_secs_prepend(
                            pre,
                            sec@,
                            split_sm(
                                input@,
                                i + 1,
                                MSplitSt::Marker { start: i as int, name: Seq::empty() },
                            ),
                        );
                        lemma_secs_model_push(out@, sec);
                        lemma_sec_bounds_push(pre, sec@, n as int);
                    }
                    out.push(sec);
                    let name2 = String::new();
                    proof {
                        assert(name2@ =~= Seq::<char>::empty());
                    }
                    st = SplitSt::Marker { start: i, name: name2 };
                    i += 1;
                } else {
                    push_char(&mut body, c);
                    st = SplitSt::Body { start, name, name_end, body_start, body };
                    i += 1;
                }
            },
        }
    }
    let ghost pre = secs_model(out@);
    let ghost stf = split_st_model(&st);
    match st {
        SplitSt::Lead => {
            proof {
                assert(pre + Seq::<MSection>::empty() =~= pre);
            }
            Ok(out)
        },
        SplitSt::LeadComment => {
            proof {
                assert(pre + Seq::<MSection>::empty() =~= pre);
            }
            Ok(out)
        },
        SplitSt::LeadSlash { at } => Err(lead_diag(at)),
        SplitSt::Marker { start, name } => {
            if name.unicode_len() == 0 {
                Err(empty_marker_diag(start))
            } else {
                let sec = RawSection { name, start, name_end: n, body: String::new(), body_start: n };
                proof {
                    assert(sec@.body =~= Seq::<char>::empty());
                    assert(split_sm(input@, n as int, stf) == Ok::<Seq<MSection>, MDiag>(
                        seq![sec@],
                    ));
                    lemma_secs_model_push(out@, sec);
                    lemma_sec_bounds_push(pre, sec@, n as int);
                    assert(pre + seq![sec@] =~= pre.push(sec@));
                }
                out.push(sec);
                Ok(out)
            }
        },
        SplitSt::Body { start, name, name_end, body_start, body } => {
            let sec = RawSection { name, start, name_end, body, body_start };
            proof {
                assert(split_sm(input@, n as int, stf) == Ok::<Seq<MSection>, MDiag>(seq![sec@]));
                lemma_secs_model_push(out@, sec);
                lemma_sec_bounds_push(pre, sec@, n as int);
                assert(pre + seq![sec@] =~= pre.push(sec@));
            }
            out.push(sec);
            Ok(out)
        },
    }
}

fn ws_char_exec(c: char) -> (r: bool)
    ensures
        r == is_ws_char(c),
{
    c == ' ' || c == '\t' || c == '\n' || c == '\r' || c == '\x0C'
}

fn ident_char_exec(c: char) -> (r: bool)
    ensures
        r == is_ident_char(c),
{
    let u = c as u32;
    (65 <= u && u <= 90) || (97 <= u && u <= 122) || c == '_' || (48 <= u && u <= 57)
}

fn lead_diag(at: usize) -> (r: Diagnostic)
    requires
        at < usize::MAX,
    ensures
        r@ == m_lead(at as int),
{
    let mut exp: Vec<String> = Vec::new();
    exp.push(String::from_str("'#'"));
    let r = Diagnostic {
        kind: DiagKind::UnexpectedToken,
        start: at,
        end: at + 1,
        expected: exp,
        found: String::from_str("text"),
    };
    proof {
        assert(r@.expected =~= seq!["'#'"@]);
    }
    r
}

fn empty_marker_diag(at: usize) -> (r: Diagnostic)
    requires
        at < usize::MAX,
    ensures
        r@ == m_empty_marker(at as int),
{
    let mut exp: Vec<String> = Vec::new();
    exp.push(String::from_str("section name"));
    let r = Diagnostic {
        kind: DiagKind::UnexpectedToken,
        start: at,
        end: at + 1,
        expected: exp,
        found: String::from_str("'#'"),
    };
    proof {
        assert(r@.expected =~= seq!["section name"@]);
    }
    r
}

} // verus!
