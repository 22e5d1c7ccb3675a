//! How many requests may be under way at once.

use vstd::prelude::*;

verus! {

/// The configured concurrency of outbound requests.
#[derive(Clone, Copy, Debug, PartialEq, Eq, Structural)]
pub enum Concurrency {
    /// Nothing is configured.
    Unset,
    /// The concurrency adapts to the service.
    Adaptive,
    /// The concurrency is fixed at this many requests.
    Fixed(usize),
}

/// A value of a configuration document, as far as a concurrency can be read from it.
#[derive(Debug)]
pub enum ConcurrencyValue {
    Integer(i64),
    Text(String),
    /// A value of any other type.
    Other,
}

/// Why a value cannot be read as a concurrency, or a concurrency not be written as a value.
#[derive(Debug)]
pub enum ConcurrencyError {
    /// An integer that is zero or negative.
    NotPositive { value: i64 },
    /// An integer beyond what a `usize` holds.
    TooLarge { value: i64 },
    /// A text other than `adaptive`.
    UnknownName { name: String },
    /// A value that is neither an integer nor a text.
    InvalidType,
    /// A fixed concurrency beyond the integers of a configuration document.
    Unrepresentable { limit: usize },
}

/// What a configured value means, or `None` where it means nothing: absent is
/// `Concurrency::Unset`, a positive integer is a fixed concurrency, and the text `adaptive` is
/// adaptive concurrency.
pub open spec fn meaning(value: Option<ConcurrencyValue>) -> Option<Concurrency> {
    match value {
        None => Some(Concurrency::Unset),
        Some(ConcurrencyValue::Integer(value)) => if 0 < value <= usize::MAX {
            Some(Concurrency::Fixed(value as usize))
        } else {
            None
        },
        Some(ConcurrencyValue::Text(text)) => if text@ == "adaptive"@ {
            Some(Concurrency::Adaptive)
        } else {
            None
        },
        Some(ConcurrencyValue::Other) => None,
    }
}

/// Whether a configuration document holds this value for the concurrency: none where it is not
/// configured, the text `adaptive`, or the fixed concurrency where the integers of a document
/// reach that far.
pub open spec fn is_written_as(
    concurrency: Concurrency,
    value: Option<ConcurrencyValue>,
) -> bool {
    match concurrency {
        Concurrency::Unset => value is None,
        Concurrency::Adaptive => value matches Some(ConcurrencyValue::Text(text)) && text@
            == "adaptive"@,
        Concurrency::Fixed(limit) => limit <= i64::MAX && value == Some(
            ConcurrencyValue::Integer(limit as i64),
        ),
    }
}

impl Concurrency {
    /// This concurrency, or the other one where this one is not configured.
    pub open spec fn spec_if_none(self, other: Concurrency) -> Concurrency {
        match self {
            Concurrency::Unset => other,
            _ => self,
        }
    }

    /// The fixed concurrency that this configures, with the other one taken where this one is not
    /// configured. There is none where the concurrency adapts.
    pub open spec fn limit(self, other: Concurrency) -> Option<usize> {
        match self.spec_if_none(other) {
            Concurrency::Fixed(limit) => Some(limit),
            _ => None,
        }
    }

    /// The fixed concurrency that this configures, with the other one taken where this one is not
    /// configured. There is none where the concurrency adapts, or where neither is configured.
    pub fn parse_concurrency(&self, other: Concurrency) -> (limit: Option<usize>)
        ensures
            limit == self.limit(other),
    {
        let chosen = match *self {
            Concurrency::Unset => other,
            set => set,
        };
        match chosen {
            Concurrency::Fixed(limit) => Some(limit),
            Concurrency::Adaptive => None,
            Concurrency::Unset => None,
        }
    }

    /// Reads the concurrency from a configuration document, in which it may be absent.
    pub fn from_value(value: &Option<ConcurrencyValue>) -> (concurrency: Result<
        Concurrency,
        ConcurrencyError,
    >)
        ensures
            match concurrency {
                Ok(read) => meaning(*value) == Some(read),
                Err(ConcurrencyError::NotPositive { value: v }) => v <= 0 && *value == Some(
                    ConcurrencyValue::Integer(v),
                ),
                Err(ConcurrencyError::TooLarge { value: v }) => v > usize::MAX && *value == Some(
                    ConcurrencyValue::Integer(v),
                ),
                Err(ConcurrencyError::UnknownName { name }) => {
                    &&& *value matches Some(ConcurrencyValue::Text(text))
                    &&& text@ == name@
                    &&& text@ != "adaptive"@
                },
                Err(ConcurrencyError::InvalidType) => *value == Some(ConcurrencyValue::Other),
                Err(ConcurrencyError::Unrepresentable { .. }) => false,
            },
    {
        match value {
            None => Ok(Concurrency::Unset),
            Some(ConcurrencyValue::Integer(value)) => {
                let value: i64 = *value;
                if value <= 0 {
                    Err(ConcurrencyError::NotPositive { value })
                } else if value as u64 > usize::MAX as u64 {
                    Err(ConcurrencyError::TooLarge { value })
                } else {
                    Ok(Concurrency::Fixed(value as usize))
                }
            },
            Some(ConcurrencyValue::Text(text)) => if *text == "adaptive".to_owned() {
                Ok(Concurrency::Adaptive)
            } else {
                Err(ConcurrencyError::UnknownName { name: text.clone() })
            },
            Some(ConcurrencyValue::Other) => Err(ConcurrencyError::InvalidType),
        }
    }

    /// Writes the concurrency to a configuration document, from which it is left out where it is
    /// not configured.
    pub fn to_value(&self) -> (value: Result<Option<ConcurrencyValue>, ConcurrencyError>)
        ensures
            match value {
                Ok(written) => is_written_as(*self, written),
                Err(error) => {
                    &&& *self matches Concurrency::Fixed(limit)
                    &&& limit > i64::MAX
                    &&& error == ConcurrencyError::Unrepresentable { limit }
                },
            },
    {
        match *self {
            Concurrency::Unset => Ok(None),
            Concurrency::Adaptive => Ok(Some(ConcurrencyValue::Text("adaptive".to_owned()))),
            Concurrency::Fixed(limit) => if limit as u64 <= i64::MAX as u64 {
                Ok(Some(ConcurrencyValue::Integer(limit as i64)))
            } else {
                Err(ConcurrencyError::Unrepresentable { limit })
            },
        }
    }
}

impl Default for Concurrency {
    fn default() -> (concurrency: Self)
        ensures
            concurrency == Concurrency::Unset,
    {
        Concurrency::Unset
    }
}

/// Whether nothing is configured.
pub fn concurrency_is_none(concurrency: &Concurrency) -> (none: bool)
    ensures
        none == (*concurrency is Unset),
{
    match concurrency {
        Concurrency::Unset => true,
        _ => false,
    }
}

} // verus!
