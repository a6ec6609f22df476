//! Positional templates: literal text with `{}` markers, which take the
//! arguments in turn, and `{n}` markers (one digit), which take argument `n`.
//! A marker that names an argument that was not supplied is a mismatch.

use vstd::prelude::*;
use vstd::string::*;

verus! {

/// Why a template could not be rendered.
#[derive(Debug, Clone, Copy, PartialEq, Eq, Structural)]
pub enum TemplateError {
    /// A marker refers to this argument index, and fewer arguments were supplied.
    MissingArgument(usize),
    /// A brace at this character position opens no marker, or closes none.
    Malformed(usize),
}

pub open spec fn is_digit(c: char) -> bool {
    '0' <= c && c <= '9'
}

pub open spec fn digit_value(c: char) -> int {
    (c as u32) as int - ('0' as u32) as int
}

/// `p` in front of a rendered text; an error passes through.
pub open spec fn prefixed(p: Seq<char>, r: Result<Seq<char>, TemplateError>) -> Result<Seq<char>, TemplateError> {
    match r {
        Ok(s) => Ok(p + s),
        Err(e) => Err(e),
    }
}

/// Rendering of `t` from position `i` on, where the next `{}` marker takes
/// argument `next`.
pub open spec fn render_from(t: Seq<char>, i: int, next: int, args: Seq<Seq<char>>) -> Result<Seq<char>, TemplateError>
    decreases t.len() - i,
{
    if i < 0 || i >= t.len() {
        Ok(Seq::empty())
    } else if t[i] == '{' {
        if i + 1 < t.len() && t[i + 1] == '}' {
            if 0 <= next < args.len() {
                prefixed(args[next], render_from(t, i + 2, next + 1, args))
            } else {
                Err(TemplateError::MissingArgument(next as usize))
            }
        } else if i + 2 < t.len() && is_digit(t[i + 1]) && t[i + 2] == '}' {
            let k = digit_value(t[i + 1]);
            if k < args.len() {
                prefixed(args[k], render_from(t, i + 3, next, args))
            } else {
                Err(TemplateError::MissingArgument(k as usize))
            }
        } else {
            Err(TemplateError::Malformed(i as usize))
        }
    } else if t[i] == '}' {
        Err(TemplateError::Malformed(i as usize))
    } else {
        prefixed(seq![t[i]], render_from(t, i + 1, next, args))
    }
}

/// Rendering of a whole template with the given arguments.
pub open spec fn render_spec(t: Seq<char>, args: Seq<Seq<char>>) -> Result<Seq<char>, TemplateError> {
    render_from(t, 0, 0, args)
}

pub open spec fn result_view(r: Result<String, TemplateError>) -> Result<Seq<char>, TemplateError> {
    match r {
        Ok(s) => Ok(s@),
        Err(e) => Err(e),
    }
}

proof fn lemma_prefixed_assoc(a: Seq<char>, b: Seq<char>, r: Result<Seq<char>, TemplateError>)
    ensures
        prefixed(a, prefixed(b, r)) == prefixed(a + b, r),
{
    if let Ok(s) = r {
        assert(a + (b + s) =~= (a + b) + s);
    }
}

/// Renders `template` with positional `args`; fails with the first mismatch
/// or malformed brace, reading from the left.
pub fn render(template: &str, args: &Vec<String>) -> (r: Result<String, TemplateError>)
    ensures
        result_view(r) == render_spec(template@, args.deep_view()),
{
    let ghost t = template@;
    let ghost a = args.deep_view();
    let n = template.unicode_len();
    let mut out = String::new();
    let mut i: usize = 0;
    let mut next: usize = 0;
    while i < n
        invariant
            t == template@,
            a == args.deep_view(),
            n == t.len(),
            i <= n,
            next <= args@.len(),
            render_spec(t, a) == prefixed(out@, render_from(t, i as int, next as int, a)),
        decreases n - i,
    {
        let c = template.get_char(i);
        if c == '{' {
            if n - i > 1 && template.get_char(i + 1) == '}' {
                if next < args.len() {
                    proof { lemma_prefixed_assoc(out@, a[next as int], render_from(t, i + 2, next + 1, a)); }
                    out.append(args[next].as_str());
                    i = i + 2;
                    next = next + 1;
                } else {
                    return Err(TemplateError::MissingArgument(next));
                }
            } else if n - i > 2 && '0' <= template.get_char(i + 1) && template.get_char(i + 1) <= '9'
                && template.get_char(i + 2) == '}' {
                let d = template.get_char(i + 1);
                let k: usize = (d as u32 - '0' as u32) as usize;
                if k < args.len() {
                    proof { lemma_prefixed_assoc(out@, a[k as int], render_from(t, i + 3, next as int, a)); }
                    out.append(args[k].as_str());
                    i = i + 3;
                } else {
                    return Err(TemplateError::MissingArgument(k));
                }
            } else {
                return Err(TemplateError::Malformed(i));
            }
        } else if c == '}' {
            return Err(TemplateError::Malformed(i));
        } else {
            proof { lemma_prefixed_assoc(out@, seq![c], render_from(t, i + 1, next as int, a)); }
            let ghost before = out@;
            crate::text::push_char(&mut out, c);
            assert(out@ =~= before + seq![c]);
            i = i + 1;
        }
    }
    assert(out@ + Seq::<char>::empty() =~= out@);
    Ok(out)
}

} // verus!
