//! The directive attached to a function: which unit to report in, and with what text.

use crate::error::TimerError;
use crate::unit::TimeUnit;
use vstd::prelude::*;
use vstd::string::StringExecFns;

verus! {

/// One argument of a directive, as far as the directive's rules look at it.
#[derive(Debug)]
pub enum DirectiveArg {
    /// A path of plain names such as `ms` or `a::b`, with a leading `::` if `global`.
    Path { global: bool, segments: Vec<String> },
    /// A string literal, by the text it denotes.
    Str(String),
    /// Anything else: another literal, a list, a name with a value.
    Other,
}

/// The mathematical form of a [`DirectiveArg`].
pub enum ArgView {
    /// A path, by the text of each segment.
    Path { global: bool, segments: Seq<Seq<char>> },
    /// A string literal, by the text it denotes.
    Str(Seq<char>),
    /// Anything else.
    Other,
}

impl DeepView for DirectiveArg {
    type V = ArgView;

    open spec fn deep_view(&self) -> ArgView {
        match *self {
            DirectiveArg::Path { global, segments } => ArgView::Path {
                global,
                segments: segments.deep_view(),
            },
            DirectiveArg::Str(text) => ArgView::Str(text@),
            DirectiveArg::Other => ArgView::Other,
        }
    }
}

/// A directive after validation: the unit, and the template of the report.
#[derive(Debug)]
pub struct Directive {
    /// The unit in which the duration is reported.
    pub unit: TimeUnit,
    /// The text to emit, with one placeholder for the number.
    pub format: String,
}

/// The mathematical form of a [`Directive`].
pub struct DirectiveView {
    /// The unit in which the duration is reported.
    pub unit: TimeUnit,
    /// The characters of the template.
    pub format: Seq<char>,
}

impl DeepView for Directive {
    type V = DirectiveView;

    open spec fn deep_view(&self) -> DirectiveView {
        DirectiveView { unit: self.unit, format: self.format@ }
    }
}

/// The template used where the directive gives none: `fn:<name> cost {}<unit>`.
pub open spec fn default_format(name: Seq<char>, unit: TimeUnit) -> Seq<char> {
    "fn:"@ + name + " cost {}"@ + unit.short_name()
}

/// The unit that an argument names: the argument must be a bare token, that is a
/// path of one segment without a leading `::`, and the token must name a unit.
pub open spec fn unit_of_arg(arg: ArgView) -> Option<TimeUnit> {
    match arg {
        ArgView::Path { global, segments } => if !global && segments.len() == 1 {
            TimeUnit::of_token(segments[0])
        } else {
            None
        },
        _ => None,
    }
}

/// The template that an argument gives: the argument must be a string literal,
/// and its text is taken as it stands. The text is not looked into: a template
/// without a placeholder, or with several, is still the template.
pub open spec fn format_of_arg(arg: ArgView) -> Option<Seq<char>> {
    match arg {
        ArgView::Str(text) => Some(text),
        _ => None,
    }
}

/// The directive that a list of arguments stands for, on a function of the given
/// name.
///
/// No argument means milliseconds and the default template. One argument is the
/// unit, with the default template for that unit. Two are the unit and the
/// template. More are refused before any of them is looked at; otherwise the unit
/// is checked before the template.
pub open spec fn directive_of(args: Seq<ArgView>, name: Seq<char>) -> Result<
    DirectiveView,
    TimerError,
> {
    if args.len() == 0 {
        Ok(DirectiveView { unit: TimeUnit::MS, format: default_format(name, TimeUnit::MS) })
    } else if args.len() > 2 {
        Err(TimerError::TooManyArguments)
    } else {
        match unit_of_arg(args[0]) {
            None => Err(TimerError::InvalidTimeUnit),
            Some(unit) => if args.len() == 1 {
                Ok(DirectiveView { unit, format: default_format(name, unit) })
            } else {
                match format_of_arg(args[1]) {
                    None => Err(TimerError::InvalidFormatLiteral),
                    Some(format) => Ok(DirectiveView { unit, format }),
                }
            },
        }
    }
}

/// Builds the default template for a function name and a unit.
pub fn make_default_format(name: &str, unit: TimeUnit) -> (format: String)
    ensures
        format@ == default_format(name@, unit),
{
    let mut format = String::from_str("fn:");
    format.append(name);
    format.append(" cost {}");
    format.append(unit.as_str());
    format
}

/// Reads the unit from the first argument of a directive.
pub fn read_time_unit(arg: &DirectiveArg) -> (res: Result<TimeUnit, TimerError>)
    ensures
        res == match unit_of_arg(arg.deep_view()) {
            Some(unit) => Ok::<TimeUnit, TimerError>(unit),
            None => Err(TimerError::InvalidTimeUnit),
        },
{
    match arg {
        DirectiveArg::Path { global, segments } => {
            if !*global && segments.len() == 1 {
                TimeUnit::from(segments[0].as_str())
            } else {
                Err(TimerError::InvalidTimeUnit)
            }
        },
        _ => Err(TimerError::InvalidTimeUnit),
    }
}

/// Reads the template from the second argument of a directive.
///
/// The template is meant to hold one placeholder, `{}`, for the number. This is
/// not checked here: the text goes into the replacement as it is, and it is the
/// sink's own formatting macro that accepts or refuses it when the replacement is
/// compiled.
pub fn read_output_format(arg: &DirectiveArg) -> (res: Result<String, TimerError>)
    ensures
        match format_of_arg(arg.deep_view()) {
            Some(text) => res matches Ok(format) && format@ == text,
            None => res == Err::<String, TimerError>(TimerError::InvalidFormatLiteral),
        },
{
    match arg {
        DirectiveArg::Str(text) => Ok(text.clone()),
        _ => Err(TimerError::InvalidFormatLiteral),
    }
}

/// Validates the arguments of a directive attached to the function `fn_name` and
/// gives the unit and the template that they stand for.
pub fn parse_args(args: &Vec<DirectiveArg>, fn_name: &str) -> (res: Result<Directive, TimerError>)
    ensures
        match directive_of(args.deep_view(), fn_name@) {
            Ok(directive) => res matches Ok(found) && found.deep_view() == directive,
            Err(error) => res == Err::<Directive, TimerError>(error),
        },
        // A third argument is refused, whatever the arguments are.
        res == Err::<Directive, TimerError>(TimerError::TooManyArguments) <==> args.len() > 2,
        // Of one or two arguments, a first that names no unit is refused.
        res == Err::<Directive, TimerError>(TimerError::InvalidTimeUnit) <==> 1 <= args.len() <= 2
            && unit_of_arg(args.deep_view()[0]) is None,
        // After a unit, a second argument that is no string literal is refused.
        res == Err::<Directive, TimerError>(TimerError::InvalidFormatLiteral) <==> args.len() == 2
            && unit_of_arg(args.deep_view()[0]) is Some && format_of_arg(args.deep_view()[1])
            is None,
        // Without an explicit template, the template is the default for the unit.
        args.len() <= 1 ==> (res matches Ok(found) ==> found.format@ == default_format(
            fn_name@,
            found.unit,
        )),
        // Without any argument the unit is milliseconds.
        args.len() == 0 ==> (res matches Ok(found) && found.unit == TimeUnit::MS),
{
    if args.len() == 0 {
        Ok(Directive { unit: TimeUnit::MS, format: make_default_format(fn_name, TimeUnit::MS) })
    } else if args.len() == 1 {
        match read_time_unit(&args[0]) {
            Ok(unit) => Ok(Directive { unit, format: make_default_format(fn_name, unit) }),
            Err(error) => Err(error),
        }
    } else if args.len() == 2 {
        match read_time_unit(&args[0]) {
            Ok(unit) => match read_output_format(&args[1]) {
                Ok(format) => Ok(Directive { unit, format }),
                Err(error) => Err(error),
            },
            Err(error) => Err(error),
        }
    } else {
        Err(TimerError::TooManyArguments)
    }
}

} // verus!
