//! The tooltip markup scanner: a linear pass over free text splitting out
//! backtick-delimited terms and tilde-delimited highlights.

use vstd::prelude::*;

use std::collections::HashMap;

verus! {

/// The tokens of the tooltip definition file.
#[derive(Debug, PartialEq)]
pub enum ToolTipsToken {
    String(String),
    Colon,
}

/// One span of tooltip text.
#[derive(Clone, Debug, PartialEq)]
pub enum ToolTipsContent {
    String(String),
    Term(String),
    Highlight(String),
}

/// Parsed tooltip definitions, keyed by term.
#[derive(Clone, Debug)]
pub struct ToolTipsData {
    pub map: HashMap<String, Vec<ToolTipsContent>>,
}

pub enum MTipContent {
    String(Seq<char>),
    Term(Seq<char>),
    Highlight(Seq<char>),
}

impl View for ToolTipsContent {
    type V = MTipContent;

    open spec fn view(&self) -> MTipContent {
        match self {
            ToolTipsContent::String(s) => MTipContent::String(s@),
            ToolTipsContent::Term(s) => MTipContent::Term(s@),
            ToolTipsContent::Highlight(s) => MTipContent::Highlight(s@),
        }
    }
}

/// The spans the scanner emits from character `i` onward, given the text
/// gathered so far and whether a backtick or tilde span is open; `None`
/// when a backtick span is left open at the end.
pub open spec fn tip_sm(
    s: Seq<char>,
    i: int,
    cur: Seq<char>,
    bt: bool,
    td: bool,
) -> Option<Seq<MTipContent>>
    decreases s.len() - i,
{
    if i < 0 || i >= s.len() {
        if bt {
            None
        } else if cur.len() > 0 {
            Some(seq![MTipContent::String(cur)])
        } else {
            Some(Seq::empty())
        }
    } else {
        let c = s[i];
        if c == '`' {
            let piece = if !bt {
                MTipContent::String(cur)
            } else {
                MTipContent::Term(cur)
            };
            match tip_sm(s, i + 1, Seq::empty(), !bt, td) {
                Some(rest) => Some(seq![piece] + rest),
                None => None,
            }
        } else if c == '~' {
            let piece = if !td {
                MTipContent::String(cur)
            } else {
                MTipContent::Highlight(cur)
            };
            match tip_sm(s, i + 1, Seq::empty(), bt, !td) {
                Some(rest) => Some(seq![piece] + rest),
                None => None,
            }
        } else {
            tip_sm(s, i + 1, cur.push(c), bt, td)
        }
    }
}

/// The spans a whole tooltip text denotes; `None` for a trailing backtick.
pub open spec fn spec_tooltip(s: Seq<char>) -> Option<Seq<MTipContent>> {
    tip_sm(s, 0, Seq::empty(), false, false)
}

pub open spec fn glue_tip(pre: Seq<MTipContent>, r: Option<Seq<MTipContent>>) -> Option<
    Seq<MTipContent>,
> {
    match r {
        Some(ts) => Some(pre + ts),
        None => None,
    }
}

proof fn lemma_glue_tip_prepend(pre: Seq<MTipContent>, t: MTipContent, r: Option<Seq<MTipContent>>)
    ensures
        glue_tip(pre, match r {
            Some(ts) => Some(seq![t] + ts),
            None => None,
        }) == glue_tip(pre.push(t), r),
{
    match r {
        Some(ts) => {
            assert(pre + (seq![t] + ts) =~= pre.push(t) + ts);
        },
        None => {},
    }
}

/// Splits a tooltip text into plain spans, backtick-delimited terms and
/// tilde-delimited highlights.  The delimiters toggle independently; each
/// closing delimiter emits the span gathered since its opener, and each
/// opener first emits the plain text before it, even when empty.  A text
/// whose backtick is left open is rejected by the precondition; an open
/// tilde span is forgiving and its text is kept as plain.
pub fn create_tooltip_content(value: String) -> (r: Vec<ToolTipsContent>)
    requires
        spec_tooltip(value@) is Some,
    ensures
        Some(crate::common::seq_view(r@)) == spec_tooltip(value@),
{
    let n = value.as_str().unicode_len();
    let mut out: Vec<ToolTipsContent> = Vec::new();
    let mut cur = String::new();
    let mut bt = false;
    let mut td = false;
    let mut i: usize = 0;
    proof {
        assert(crate::common::seq_view(out@) =~= Seq::<MTipContent>::empty());
        assert(cur@ =~= Seq::<char>::empty());
        assert(glue_tip(crate::common::seq_view(out@), tip_sm(value@, 0, cur@, false, false))
            == spec_tooltip(value@));
    }
    while i < n
        invariant
            n == value@.len(),
            i <= n,
            glue_tip(crate::common::seq_view(out@), tip_sm(value@, i as int, cur@, bt, td))
                == spec_tooltip(value@),
        decreases n - i,
    {
        let ghost pre = crate::common::seq_view(out@);
        let c = value.as_str().get_char(i);
        if c == '`' {
            let piece = if !bt {
                ToolTipsContent::String(cur)
            } else {
                ToolTipsContent::Term(cur)
            };
            proof {
                lemma_glue_tip_prepend(pre, piece@, tip_sm(value@, i + 1, Seq::empty(), !bt, td));
                assert(crate::common::seq_view(out@.push(piece)) =~= pre.push(piece@));
            }
            out.push(piece);
            cur = String::new();
            proof {
                assert(cur@ =~= Seq::<char>::empty());
            }
            bt = !bt;
        } else if c == '~' {
            let piece = if !td {
                ToolTipsContent::String(cur)
            } else {
                ToolTipsContent::Highlight(cur)
            };
            proof {
                lemma_glue_tip_prepend(pre, piece@, tip_sm(value@, i + 1, Seq::empty(), bt, !td));
                assert(crate::common::seq_view(out@.push(piece)) =~= pre.push(piece@));
            }
            out.push(piece);
            cur = String::new();
            proof {
                assert(cur@ =~= Seq::<char>::empty());
            }
            td = !td;
        } else {
            crate::text::push_char(&mut cur, c);
        }
        i += 1;
    }
    if bt {
        proof {
            assert(false);
        }
    }
    if cur.as_str().unicode_len() > 0 {
        let ghost pre = crate::common::seq_view(out@);
        let piece = ToolTipsContent::String(cur);
        proof {
            assert(crate::common::seq_view(out@.push(piece)) =~= pre.push(piece@));
            assert(pre + seq![piece@] =~= pre.push(piece@));
        }
        out.push(piece);
        out
    } else {
        proof {
            assert(crate::common::seq_view(out@) + Seq::<MTipContent>::empty()
                =~= crate::common::seq_view(out@));
        }
        out
    }
}

} // verus!
