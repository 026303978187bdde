//! Output file names from a template with `{name}`, `{scale}` and `{model}`
//! placeholders.
use vstd::prelude::*;

use crate::numerals::{decimal, push_decimal};
use crate::settings::UpscaleRatio;
use crate::text::{matches_at, occurs_at};

verus! {

pub open spec fn name_token() -> Seq<char> {
    seq!['{', 'n', 'a', 'm', 'e', '}']
}

pub open spec fn scale_token() -> Seq<char> {
    seq!['{', 's', 'c', 'a', 'l', 'e', '}']
}

pub open spec fn model_token() -> Seq<char> {
    seq!['{', 'm', 'o', 'd', 'e', 'l', '}']
}

/// The expansion of `t` from position `i` on: read left to right, each
/// placeholder is replaced by its value and every other character is kept.
pub open spec fn expand_from(
    t: Seq<char>,
    i: int,
    name: Seq<char>,
    scale: Seq<char>,
    model: Seq<char>,
) -> Seq<char>
    decreases t.len() - i,
{
    if i < 0 || i >= t.len() {
        Seq::empty()
    } else if occurs_at(t, i, name_token()) {
        name + expand_from(t, i + 6, name, scale, model)
    } else if occurs_at(t, i, scale_token()) {
        scale + expand_from(t, i + 7, name, scale, model)
    } else if occurs_at(t, i, model_token()) {
        model + expand_from(t, i + 7, name, scale, model)
    } else {
        seq![t[i]] + expand_from(t, i + 1, name, scale, model)
    }
}

pub open spec fn expand_template(
    t: Seq<char>,
    name: Seq<char>,
    scale: Seq<char>,
    model: Seq<char>,
) -> Seq<char> {
    expand_from(t, 0, name, scale, model)
}

/// Expands the placeholders of `template`: `{name}` becomes `name`,
/// `{scale}` the decimal digits of `scale`, `{model}` becomes `model`.
pub fn expand_filename_template(template: &str, name: &str, scale: u32, model: &str) -> (r: String)
    ensures
        r@ == expand_template(template@, name@, decimal(scale as nat), model@),
{
    proof {
        reveal_strlit("{name}");
        reveal_strlit("{scale}");
        reveal_strlit("{model}");
        assert("{name}"@ =~= name_token());
        assert("{scale}"@ =~= scale_token());
        assert("{model}"@ =~= model_token());
    }
    let ghost t = template@;
    let ghost sc = decimal(scale as nat);
    let n = template.unicode_len();
    let mut out = String::new();
    let mut run_start: usize = 0;
    let mut i: usize = 0;
    while i < n
        invariant
            n == t.len(),
            t == template@,
            sc == decimal(scale as nat),
            "{name}"@ == name_token(),
            "{scale}"@ == scale_token(),
            "{model}"@ == model_token(),
            run_start <= i <= n,
            out@ + t.subrange(run_start as int, i as int) + expand_from(
                t,
                i as int,
                name@,
                sc,
                model@,
            ) == expand_template(t, name@, sc, model@),
        decreases n - i,
    {
        let ghost before = out@;
        let ghost pending = t.subrange(run_start as int, i as int);
        if matches_at(template, n, i, "{name}") {
            out.append(template.substring_char(run_start, i));
            out.append(name);
            i = i + 6;
            run_start = i;
            assert(out@ + t.subrange(run_start as int, i as int) + expand_from(
                t,
                i as int,
                name@,
                sc,
                model@,
            ) =~= before + pending + expand_from(t, i - 6, name@, sc, model@));
        } else if matches_at(template, n, i, "{scale}") {
            out.append(template.substring_char(run_start, i));
            push_decimal(&mut out, scale);
            i = i + 7;
            run_start = i;
            assert(out@ + t.subrange(run_start as int, i as int) + expand_from(
                t,
                i as int,
                name@,
                sc,
                model@,
            ) =~= before + pending + expand_from(t, i - 7, name@, sc, model@));
        } else if matches_at(template, n, i, "{model}") {
            out.append(template.substring_char(run_start, i));
            out.append(model);
            i = i + 7;
            run_start = i;
            assert(out@ + t.subrange(run_start as int, i as int) + expand_from(
                t,
                i as int,
                name@,
                sc,
                model@,
            ) =~= before + pending + expand_from(t, i - 7, name@, sc, model@));
        } else {
            i = i + 1;
            assert(t.subrange(run_start as int, i as int) =~= pending.push(t[i - 1]));
            assert(out@ + t.subrange(run_start as int, i as int) + expand_from(
                t,
                i as int,
                name@,
                sc,
                model@,
            ) =~= before + pending + expand_from(t, i - 1, name@, sc, model@));
        }
    }
    out.append(template.substring_char(run_start, n));
    assert(out@ =~= expand_template(t, name@, sc, model@));
    out
}

/// The output file name for an input file whose name without extension is
/// `stem`; no stem means the input is not a file.
pub fn generate_output_filename(
    format: &str,
    stem: Option<&str>,
    ratio: UpscaleRatio,
    model: &str,
) -> (r: Result<String, String>)
    ensures
        match stem {
            Some(s) => r matches Ok(f) && f@ == expand_template(
                format@,
                s@,
                decimal(ratio.spec_factor() as nat),
                model@,
            ),
            None => r matches Err(e) && e@ == "Invalid input file selected."@,
        },
{
    match stem {
        Some(s) => Ok(expand_filename_template(format, s, ratio.factor(), model)),
        None => Err(String::from_str("Invalid input file selected.")),
    }
}

} // verus!
