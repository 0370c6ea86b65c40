//! The logging facility's data model: the severity levels, the formatting
//! style with its per-level colors and date styles, and the kinds of
//! filtering rules.
use vstd::prelude::*;
use vstd::string::*;

verus! {

// ======================= LogType =======================

/// A log's severity level, ordered from Trace up to Panic.
#[derive(Debug, Clone, Copy, Eq, PartialEq, Ord, PartialOrd, Hash, Structural)]
pub enum LogType {
    Trace,
    Debug,
    Info,
    Warn,
    Error,
    Panic,
}

impl LogType {
    /// The level's rank, from zero (Trace) to five (Panic).
    pub open spec fn spec_rank(self) -> int {
        match self {
            LogType::Trace => 0,
            LogType::Debug => 1,
            LogType::Info => 2,
            LogType::Warn => 3,
            LogType::Error => 4,
            LogType::Panic => 5,
        }
    }

    /// The level's rank, from zero (Trace) to five (Panic).
    pub fn rank(&self) -> (r: usize)
        ensures
            r == self.spec_rank(),
    {
        match self {
            LogType::Trace => 0,
            LogType::Debug => 1,
            LogType::Info => 2,
            LogType::Warn => 3,
            LogType::Error => 4,
            LogType::Panic => 5,
        }
    }
}

impl Default for LogType {
    /// The Info level.
    fn default() -> (r: Self)
        ensures
            r == LogType::Info,
    {
        LogType::Info
    }
}

// ======================= RuleType =======================

/// The kind of a filtering rule: what it excludes, requires or redirects.
#[derive(Debug, Clone, Copy, PartialEq, Eq, Hash, Structural)]
pub enum RuleType {
    /// Drop logs whose route matches a pattern.
    ExcludeRoute,
    /// Drop logs whose text matches a pattern.
    ExcludeText,
    /// Write matching logs to a stream.
    WriteTo,
    /// Keep only logs above a level.
    GreaterLevelThan,
    /// Keep only logs below a level.
    LessLevelThan,
    /// Keep only logs whose route matches a pattern.
    RequireRoute,
}

// ======================= Style =======================

/// How dates are rendered in a formatted log line.
#[derive(Debug, Clone, Copy, PartialEq, Eq, Structural)]
pub enum DateStyle {
    HourMinuteSecond,
    HourMinute,
    Hour,
    DayMonthYear,
    Full,
}

impl Default for DateStyle {
    /// Hours, minutes and seconds.
    fn default() -> (r: Self)
        ensures
            r == DateStyle::HourMinuteSecond,
    {
        DateStyle::HourMinuteSecond
    }
}

/// The default pattern for formatting logs.
pub const DEFAULT_PATTERN: &'static str = "[{date}] \x1b[37m[{type}]\x1b[0m {route} {c}{text}{sc}";

/// What stands in for the route when a log has none.
pub const DEFAULT_NO_ROUTE: &'static str = "::";

/// A formatting style: an ANSI color code per severity level, a line
/// pattern with placeholders, the text standing in for a missing route, and
/// a date style.
#[derive(Debug, Clone)]
pub struct Style {
    colors: Vec<Option<u8>>,
    pattern: String,
    no_route: String,
    date_style: DateStyle,
    print_route_when_none: bool,
}

impl Style {
    /// The color slots, one per severity level in rank order.
    pub closed spec fn spec_colors(&self) -> Seq<Option<u8>> {
        self.colors@
    }

    /// The line pattern.
    pub closed spec fn spec_pattern(&self) -> Seq<char> {
        self.pattern@
    }

    /// The text standing in for a missing route.
    pub closed spec fn spec_no_route(&self) -> Seq<char> {
        self.no_route@
    }

    /// The date style.
    pub closed spec fn spec_date_style(&self) -> DateStyle {
        self.date_style
    }

    /// Whether the missing-route text is printed at all.
    pub closed spec fn spec_print_route_when_none(&self) -> bool {
        self.print_route_when_none
    }

    /// Well-formed: one color slot per severity level.
    pub closed spec fn inv(&self) -> bool {
        self.colors@.len() == 6
    }

    /// Define the color for a severity level.
    pub fn set_color(&mut self, log_type: LogType, color: u8)
        requires
            old(self).inv(),
        ensures
            final(self).inv(),
            final(self).spec_colors() == old(self).spec_colors().update(
                log_type.spec_rank(),
                Some(color),
            ),
            final(self).spec_pattern() == old(self).spec_pattern(),
            final(self).spec_no_route() == old(self).spec_no_route(),
            final(self).spec_date_style() == old(self).spec_date_style(),
            final(self).spec_print_route_when_none() == old(self).spec_print_route_when_none(),
    {
        let at = log_type.rank();
        let slot = vstd::std_specs::vec::vec_index_mut(&mut self.colors, at);
        *slot = Some(color);
    }

    /// Remove the color for a severity level.
    pub fn remove_color(&mut self, log_type: LogType)
        requires
            old(self).inv(),
        ensures
            final(self).inv(),
            final(self).spec_colors() == old(self).spec_colors().update(
                log_type.spec_rank(),
                None,
            ),
            final(self).spec_pattern() == old(self).spec_pattern(),
            final(self).spec_no_route() == old(self).spec_no_route(),
            final(self).spec_date_style() == old(self).spec_date_style(),
            final(self).spec_print_route_when_none() == old(self).spec_print_route_when_none(),
    {
        let at = log_type.rank();
        let slot = vstd::std_specs::vec::vec_index_mut(&mut self.colors, at);
        *slot = None;
    }

    /// The color for a severity level, if one is defined.
    pub fn get_color(&self, log_type: &LogType) -> (r: Option<u8>)
        requires
            self.inv(),
        ensures
            r == self.spec_colors()[log_type.spec_rank()],
    {
        self.colors[log_type.rank()]
    }

    /// Set the pattern for formatting logs.
    pub fn set_pattern(&mut self, pattern: &str)
        requires
            old(self).inv(),
        ensures
            final(self).inv(),
            final(self).spec_pattern() == pattern@,
            final(self).spec_colors() == old(self).spec_colors(),
            final(self).spec_no_route() == old(self).spec_no_route(),
            final(self).spec_date_style() == old(self).spec_date_style(),
            final(self).spec_print_route_when_none() == old(self).spec_print_route_when_none(),
    {
        self.pattern = pattern.to_owned();
    }

    /// Set the text standing in for a missing route.
    pub fn set_no_route(&mut self, no_route: &str)
        requires
            old(self).inv(),
        ensures
            final(self).inv(),
            final(self).spec_no_route() == no_route@,
            final(self).spec_colors() == old(self).spec_colors(),
            final(self).spec_pattern() == old(self).spec_pattern(),
            final(self).spec_date_style() == old(self).spec_date_style(),
            final(self).spec_print_route_when_none() == old(self).spec_print_route_when_none(),
    {
        self.no_route = no_route.to_owned();
    }

    /// Set the date style.
    pub fn set_date_style(&mut self, date_style: DateStyle)
        requires
            old(self).inv(),
        ensures
            final(self).inv(),
            final(self).spec_date_style() == date_style,
            final(self).spec_colors() == old(self).spec_colors(),
            final(self).spec_pattern() == old(self).spec_pattern(),
            final(self).spec_no_route() == old(self).spec_no_route(),
            final(self).spec_print_route_when_none() == old(self).spec_print_route_when_none(),
    {
        self.date_style = date_style;
    }

    /// The date style.
    pub fn get_date_style(&self) -> (r: &DateStyle)
        ensures
            *r == self.spec_date_style(),
    {
        &self.date_style
    }

    /// Choose whether the missing-route text is printed at all.
    pub fn set_print_route_when_none(&mut self, print_route_when_none: bool)
        requires
            old(self).inv(),
        ensures
            final(self).inv(),
            final(self).spec_print_route_when_none() == print_route_when_none,
            final(self).spec_colors() == old(self).spec_colors(),
            final(self).spec_pattern() == old(self).spec_pattern(),
            final(self).spec_no_route() == old(self).spec_no_route(),
            final(self).spec_date_style() == old(self).spec_date_style(),
    {
        self.print_route_when_none = print_route_when_none;
    }

    /// Whether the missing-route text is printed at all.
    pub fn get_print_route_when_none(&self) -> (r: bool)
        ensures
            r == self.spec_print_route_when_none(),
    {
        self.print_route_when_none
    }
}

impl Default for Style {
    /// The default style: white for Trace and Debug, blue for Info, yellow
    /// for Warn, red for Error and Panic; the default pattern and
    /// missing-route text; hour-minute-second dates; the missing-route text
    /// not printed.
    fn default() -> (r: Self)
        ensures
            r.inv(),
            r.spec_colors() == seq![
                Some(37u8),
                Some(37u8),
                Some(34u8),
                Some(33u8),
                Some(31u8),
                Some(31u8),
            ],
            r.spec_pattern() == DEFAULT_PATTERN@,
            r.spec_no_route() == DEFAULT_NO_ROUTE@,
            r.spec_date_style() == DateStyle::HourMinuteSecond,
            !r.spec_print_route_when_none(),
    {
        let mut colors: Vec<Option<u8>> = Vec::new();
        colors.push(Some(37));
        colors.push(Some(37));
        colors.push(Some(34));
        colors.push(Some(33));
        colors.push(Some(31));
        colors.push(Some(31));
        let s = Style {
            colors,
            pattern: DEFAULT_PATTERN.to_owned(),
            no_route: DEFAULT_NO_ROUTE.to_owned(),
            date_style: DateStyle::HourMinuteSecond,
            print_route_when_none: false,
        };
        proof {
            assert(s.spec_colors() =~= seq![
                Some(37u8),
                Some(37u8),
                Some(34u8),
                Some(33u8),
                Some(31u8),
                Some(31u8),
            ]);
        }
        s
    }
}

} // verus!
