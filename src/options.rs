use vstd::prelude::*;

verus! {

/// The command line of the data tools: one subcommand.
#[derive(Clone, Debug)]
pub struct Options {
    pub subcommand: Subcommand,
}

/// What the data tools are asked to do.
#[derive(Clone, Debug)]
pub enum Subcommand {
    /// Add a country code to each address of one file.
    ParseIP(ParseIPArguments),
    /// Run the address parsing for every day of a date range.
    BackfillIP(BackfillIPArguments),
    /// Keep the users seen in one country today and in another during a span of days before.
    FilterIPLoc(FilterIPLocArguments),
}

#[derive(Clone, Debug)]
pub struct ParseIPArguments {
    pub input: String,
    pub output: String,
    pub geolib: String,
    pub separator: String,
}

#[derive(Clone, Debug)]
pub struct BackfillIPArguments {
    pub input: String,
    pub output: String,
    pub from: String,
    pub to: String,
    pub geolib: String,
    pub separator: String,
}

#[derive(Clone, Debug)]
pub struct FilterIPLocArguments {
    pub input: String,
    pub output: String,
    pub current: String,
    pub span: i64,
}

} // verus!
