//! The command line of one upscaler run.
use vstd::prelude::*;

use crate::numerals::{decimal, decimal_string};

verus! {

/// The upscaler executable, looked up next to the front-end.
pub const UPSCALER_EXECUTABLE: &'static str = "./realesrgan-ncnn-vulkan-cli";

/// One argument of the upscaler's command line. Paths are carried in the
/// caller's own path type, so that they reach the child byte for byte.
#[derive(Debug, PartialEq, Eq)]
pub enum CliArg<P> {
    Text(String),
    Path(P),
}

/// What an argument means: its characters, or the path it carries.
pub enum ArgView<P> {
    Text(Seq<char>),
    Path(P),
}

impl<P> View for CliArg<P> {
    type V = ArgView<P>;

    open spec fn view(&self) -> ArgView<P> {
        match self {
            CliArg::Text(s) => ArgView::Text(s@),
            CliArg::Path(p) => ArgView::Path(*p),
        }
    }
}

pub open spec fn arg_views<P>(args: Seq<CliArg<P>>) -> Seq<ArgView<P>> {
    args.map_values(|a: CliArg<P>| a@)
}

pub open spec fn input_flag() -> Seq<char> {
    seq!['-', 'i']
}

pub open spec fn output_flag() -> Seq<char> {
    seq!['-', 'o']
}

pub open spec fn scale_flag() -> Seq<char> {
    seq!['-', 's']
}

pub open spec fn gpu_flag() -> Seq<char> {
    seq!['-', 'g']
}

pub open spec fn model_path_flag() -> Seq<char> {
    seq!['-', 'm']
}

pub open spec fn model_name_flag() -> Seq<char> {
    seq!['-', 'n']
}

pub open spec fn tta_flag() -> Seq<char> {
    seq!['-', 'x']
}

/// A flag and its value, or nothing when the value is empty.
pub open spec fn optional_pair<P>(flag: Seq<char>, value: Seq<char>) -> Seq<ArgView<P>> {
    if value.len() == 0 {
        Seq::empty()
    } else {
        seq![ArgView::Text(flag), ArgView::Text(value)]
    }
}

/// The upscaler's argument convention:
/// `-i <input> -o <output> -s <ratio> [-g <gpu>] [-m <model path>] [-n <model name>] [-x]`.
pub open spec fn command_line<P>(
    input_path: P,
    output_path: P,
    upscale_ratio: u32,
    gpu_id: Seq<char>,
    model_path: Seq<char>,
    model_name: Seq<char>,
    tta_mode: bool,
) -> Seq<ArgView<P>> {
    seq![
        ArgView::Text(input_flag()),
        ArgView::Path(input_path),
        ArgView::Text(output_flag()),
        ArgView::Path(output_path),
        ArgView::Text(scale_flag()),
        ArgView::Text(decimal(upscale_ratio as nat)),
    ] + optional_pair(gpu_flag(), gpu_id) + optional_pair(model_path_flag(), model_path)
        + optional_pair(model_name_flag(), model_name) + if tta_mode {
        seq![ArgView::Text(tta_flag())]
    } else {
        Seq::empty()
    }
}

fn text_arg<P>(s: &str) -> (r: CliArg<P>)
    ensures
        r@ == ArgView::<P>::Text(s@),
{
    CliArg::Text(String::from_str(s))
}

fn push_optional<P>(args: &mut Vec<CliArg<P>>, flag: &str, value: String)
    ensures
        arg_views(final(args)@) == arg_views(old(args)@) + optional_pair::<P>(flag@, value@),
{
    let ghost before = args@;
    if !value.as_str().is_empty() {
        args.push(text_arg(flag));
        args.push(CliArg::Text(value));
    }
    assert(arg_views(args@) =~= arg_views(before) + optional_pair::<P>(flag@, value@));
}

/// Builds the upscaler's arguments for one input file. The `-g`, `-m` and
/// `-n` pairs appear only for a non-empty value, `-x` only when test-time
/// augmentation is on.
pub fn spawn_arguments<P>(
    input_path: P,
    output_path: P,
    upscale_ratio: u32,
    gpu_id: String,
    model_path: String,
    model_name: String,
    tta_mode: bool,
) -> (args: Vec<CliArg<P>>)
    ensures
        arg_views(args@) == command_line(
            input_path,
            output_path,
            upscale_ratio,
            gpu_id@,
            model_path@,
            model_name@,
            tta_mode,
        ),
{
    proof {
        reveal_strlit("-i");
        reveal_strlit("-o");
        reveal_strlit("-s");
        reveal_strlit("-g");
        reveal_strlit("-m");
        reveal_strlit("-n");
        reveal_strlit("-x");
        assert("-i"@ =~= input_flag());
        assert("-o"@ =~= output_flag());
        assert("-s"@ =~= scale_flag());
        assert("-g"@ =~= gpu_flag());
        assert("-m"@ =~= model_path_flag());
        assert("-n"@ =~= model_name_flag());
        assert("-x"@ =~= tta_flag());
    }
    let ghost gpu = gpu_id@;
    let ghost mpath = model_path@;
    let ghost mname = model_name@;
    let mut args: Vec<CliArg<P>> = Vec::new();
    args.push(text_arg("-i"));
    args.push(CliArg::Path(input_path));
    args.push(text_arg("-o"));
    args.push(CliArg::Path(output_path));
    args.push(text_arg("-s"));
    args.push(CliArg::Text(decimal_string(upscale_ratio)));
    let ghost fixed = arg_views(args@);
    assert(fixed =~= seq![
        ArgView::Text(input_flag()),
        ArgView::Path(input_path),
        ArgView::Text(output_flag()),
        ArgView::Path(output_path),
        ArgView::Text(scale_flag()),
        ArgView::Text(decimal(upscale_ratio as nat)),
    ]);
    push_optional(&mut args, "-g", gpu_id);
    push_optional(&mut args, "-m", model_path);
    push_optional(&mut args, "-n", model_name);
    let ghost before_tta = args@;
    if tta_mode {
        args.push(text_arg("-x"));
    }
    proof {
        let tail: Seq<ArgView<P>> = if tta_mode {
            seq![ArgView::Text(tta_flag())]
        } else {
            Seq::empty()
        };
        assert(arg_views(args@) =~= arg_views(before_tta) + tail);
        assert(arg_views(args@) =~= command_line(
            input_path,
            output_path,
            upscale_ratio,
            gpu,
            mpath,
            mname,
            tta_mode,
        ));
    }
    args
}

} // verus!
