//! The ways in which a request to configure or run a merge is refused.
use vstd::prelude::*;

verus! {

/// The argument that a command went without.
#[derive(Clone, Copy, Debug, PartialEq, Eq, Structural)]
pub enum Argument {
    Method,
    Value,
    FileIndex,
    Kind,
    Column,
    Prefix,
    Radius,
    Index,
    Key,
}

/// Why a request was refused. A refused request leaves everything as it was.
#[derive(Clone, Debug, PartialEq, Eq)]
pub enum ConfigError {
    /// The command needs an argument that was not given.
    Missing(Argument),
    /// The join mode is none of `left`, `inner`, `outer`.
    InvalidMatchMode,
    /// The flag is neither `true` nor `false`.
    InvalidFlag,
    /// The table index is not written as a decimal number.
    InvalidIndex,
    /// No table has this index.
    IndexOutOfBounds,
    /// The column kind is neither `output` nor `compare`.
    InvalidKind,
    /// The table has no column of this name.
    UnknownColumn(String),
    /// The radius is not a number greater than zero.
    InvalidRadius,
    /// The values offered are not one per row, or not one list per table.
    WrongLength,
    /// A record does not have one field per header.
    RaggedRecord,
    /// Some table lacks what the operation needs: its coordinates for a
    /// merge, its address roles for geocoding.
    NotReady,
    /// No table has an output column.
    NoOutputColumns,
    /// The tables have more columns or rows than can be indexed.
    TooLarge,
    /// No lookup is due: every table is folded in.
    Finished,
    /// No candidate awaits its measurement.
    NothingPicked,
}

/// A refusal as a mathematical value.
pub enum Fault {
    Missing(Argument),
    InvalidMatchMode,
    InvalidFlag,
    InvalidIndex,
    IndexOutOfBounds,
    InvalidKind,
    UnknownColumn(Seq<char>),
    InvalidRadius,
    WrongLength,
    RaggedRecord,
    NotReady,
    NoOutputColumns,
    TooLarge,
    Finished,
    NothingPicked,
}

impl View for ConfigError {
    type V = Fault;

    open spec fn view(&self) -> Fault {
        match self {
            ConfigError::Missing(argument) => Fault::Missing(*argument),
            ConfigError::InvalidMatchMode => Fault::InvalidMatchMode,
            ConfigError::InvalidFlag => Fault::InvalidFlag,
            ConfigError::InvalidIndex => Fault::InvalidIndex,
            ConfigError::IndexOutOfBounds => Fault::IndexOutOfBounds,
            ConfigError::InvalidKind => Fault::InvalidKind,
            ConfigError::UnknownColumn(name) => Fault::UnknownColumn(name@),
            ConfigError::InvalidRadius => Fault::InvalidRadius,
            ConfigError::WrongLength => Fault::WrongLength,
            ConfigError::RaggedRecord => Fault::RaggedRecord,
            ConfigError::NotReady => Fault::NotReady,
            ConfigError::NoOutputColumns => Fault::NoOutputColumns,
            ConfigError::TooLarge => Fault::TooLarge,
            ConfigError::Finished => Fault::Finished,
            ConfigError::NothingPicked => Fault::NothingPicked,
        }
    }
}

/// How a missing argument is called in a message.
pub open spec fn argument_name(argument: Argument) -> Seq<char> {
    match argument {
        Argument::Method => "method"@,
        Argument::Value => "val"@,
        Argument::FileIndex => "file_index"@,
        Argument::Kind => "type"@,
        Argument::Column => "output_col"@,
        Argument::Prefix => "prefix"@,
        Argument::Radius => "radius"@,
        Argument::Index => "index is"@,
        Argument::Key => "key is"@,
    }
}

impl Fault {
    /// The message that tells the operator of the refusal.
    pub open spec fn message(self) -> Seq<char> {
        match self {
            Fault::Missing(argument) => argument_name(argument) + " required"@,
            Fault::InvalidMatchMode => "Invalid match mode"@,
            Fault::InvalidFlag => "val must be true or false"@,
            Fault::InvalidIndex => "invalid digit found in string"@,
            Fault::IndexOutOfBounds => "Index out of Bounds"@,
            Fault::InvalidKind => "Invalid type"@,
            Fault::UnknownColumn(name) => "No column named "@ + name,
            Fault::InvalidRadius => "radius must be a number greater than zero"@,
            Fault::WrongLength => "one value per row required"@,
            Fault::RaggedRecord => "record with a wrong number of fields"@,
            Fault::NotReady => "Invalid config"@,
            Fault::NoOutputColumns => "No output columns supplied"@,
            Fault::TooLarge => "too many rows or columns"@,
            Fault::Finished => "the merge is finished"@,
            Fault::NothingPicked => "no candidate awaits its measurement"@,
        }
    }
}

impl ConfigError {
    /// Whether the error names the given column as unknown.
    pub open spec fn is_unknown_column(self, name: Seq<char>) -> bool {
        self@ == Fault::UnknownColumn(name)
    }

    /// The message that tells the operator of the refusal.
    pub fn message(&self) -> (r: String)
        ensures
            r@ == self@.message(),
    {
        match self {
            ConfigError::Missing(argument) => {
                let name: &str = match argument {
                    Argument::Method => "method",
                    Argument::Value => "val",
                    Argument::FileIndex => "file_index",
                    Argument::Kind => "type",
                    Argument::Column => "output_col",
                    Argument::Prefix => "prefix",
                    Argument::Radius => "radius",
                    Argument::Index => "index is",
                    Argument::Key => "key is",
                };
                let mut text: String = name.to_owned();
                text.append(" required");
                text
            },
            ConfigError::InvalidMatchMode => "Invalid match mode".to_owned(),
            ConfigError::InvalidFlag => "val must be true or false".to_owned(),
            ConfigError::InvalidIndex => "invalid digit found in string".to_owned(),
            ConfigError::IndexOutOfBounds => "Index out of Bounds".to_owned(),
            ConfigError::InvalidKind => "Invalid type".to_owned(),
            ConfigError::UnknownColumn(name) => {
                let mut text: String = "No column named ".to_owned();
                text.append(name.as_str());
                text
            },
            ConfigError::InvalidRadius => "radius must be a number greater than zero".to_owned(),
            ConfigError::WrongLength => "one value per row required".to_owned(),
            ConfigError::RaggedRecord => "record with a wrong number of fields".to_owned(),
            ConfigError::NotReady => "Invalid config".to_owned(),
            ConfigError::NoOutputColumns => "No output columns supplied".to_owned(),
            ConfigError::TooLarge => "too many rows or columns".to_owned(),
            ConfigError::Finished => "the merge is finished".to_owned(),
            ConfigError::NothingPicked => "no candidate awaits its measurement".to_owned(),
        }
    }
}

} // verus!
