//! What reading, writing and choosing a concurrency come to, value by value.

use crate::adaptive_concurrency::AdaptiveConcurrencySettings;
use crate::concurrency::{concurrency_is_none, Concurrency, ConcurrencyError, ConcurrencyValue};
use vstd::prelude::*;

verus! {

/// A positive integer is read as the fixed concurrency of just that number, wherever a `usize` can
/// hold it. Every other integer is refused, and the error names it.
pub proof fn law_integers_are_read_as_they_are(
    value: i64,
    read: Result<Concurrency, ConcurrencyError>,
)
    requires
        call_ensures(Concurrency::from_value, (&Some(ConcurrencyValue::Integer(value)),), read),
    ensures
        0 < value <= usize::MAX ==> (read matches Ok(Concurrency::Fixed(limit)) && limit == value),
        value <= 0 ==> read == Err::<Concurrency, _>(ConcurrencyError::NotPositive { value }),
        value > usize::MAX ==> read == Err::<Concurrency, _>(ConcurrencyError::TooLarge { value }),
{
}

/// The text `adaptive` is read as adaptive concurrency. Every other text is refused, and the error
/// repeats it.
pub proof fn law_only_adaptive_is_a_name(
    text: String,
    read: Result<Concurrency, ConcurrencyError>,
)
    requires
        call_ensures(Concurrency::from_value, (&Some(ConcurrencyValue::Text(text)),), read),
    ensures
        text@ == "adaptive"@ ==> read == Ok::<_, ConcurrencyError>(Concurrency::Adaptive),
        text@ != "adaptive"@ ==> (read matches Err(ConcurrencyError::UnknownName { name }) && name@
            == text@),
{
}

/// An absent value is read as no concurrency at all.
pub proof fn law_absent_is_unset(read: Result<Concurrency, ConcurrencyError>)
    requires
        call_ensures(Concurrency::from_value, (&None::<ConcurrencyValue>,), read),
    ensures
        read == Ok::<_, ConcurrencyError>(Concurrency::Unset),
{
}

/// A value that is neither an integer nor a text is refused.
pub proof fn law_other_values_are_refused(read: Result<Concurrency, ConcurrencyError>)
    requires
        call_ensures(Concurrency::from_value, (&Some(ConcurrencyValue::Other),), read),
    ensures
        read == Err::<Concurrency, _>(ConcurrencyError::InvalidType),
{
}

/// A fixed concurrency is written as just that number, wherever an integer of a document can hold
/// it. It is refused otherwise, and the error names it.
pub proof fn law_fixed_concurrency_is_written_as_it_is(
    limit: usize,
    written: Result<Option<ConcurrencyValue>, ConcurrencyError>,
)
    requires
        call_ensures(Concurrency::to_value, (&Concurrency::Fixed(limit),), written),
    ensures
        limit <= i64::MAX ==> (written matches Ok(Some(ConcurrencyValue::Integer(value))) && value
            == limit),
        limit > i64::MAX ==> written == Err::<Option<ConcurrencyValue>, _>(
            ConcurrencyError::Unrepresentable { limit },
        ),
{
}

/// Adaptive concurrency is written as the text `adaptive`.
pub proof fn law_adaptive_is_written_by_name(
    written: Result<Option<ConcurrencyValue>, ConcurrencyError>,
)
    requires
        call_ensures(Concurrency::to_value, (&Concurrency::Adaptive,), written),
    ensures
        written matches Ok(Some(ConcurrencyValue::Text(text))) && text@ == "adaptive"@,
{
}

/// A concurrency that is not configured is not written.
pub proof fn law_unset_is_not_written(
    written: Result<Option<ConcurrencyValue>, ConcurrencyError>,
)
    requires
        call_ensures(Concurrency::to_value, (&Concurrency::Unset,), written),
    ensures
        written == Ok::<_, ConcurrencyError>(None::<ConcurrencyValue>),
{
}

/// What is left out of a document is just what counts as not configured.
pub proof fn law_none_is_what_is_not_written(
    concurrency: Concurrency,
    none: bool,
    written: Result<Option<ConcurrencyValue>, ConcurrencyError>,
)
    requires
        call_ensures(concurrency_is_none, (&concurrency,), none),
        call_ensures(Concurrency::to_value, (&concurrency,), written),
    ensures
        none <==> concurrency == Concurrency::Unset,
        none <==> written == Ok::<_, ConcurrencyError>(None::<ConcurrencyValue>),
{
}

/// Reading gives back what was written. Only a fixed concurrency of zero, which no document may
/// ask for, does not come back.
pub proof fn law_reading_undoes_writing(
    concurrency: Concurrency,
    value: Option<ConcurrencyValue>,
    read: Result<Concurrency, ConcurrencyError>,
)
    requires
        concurrency != Concurrency::Fixed(0),
        call_ensures(
            Concurrency::to_value,
            (&concurrency,),
            Ok::<_, ConcurrencyError>(value),
        ),
        call_ensures(Concurrency::from_value, (&value,), read),
    ensures
        read == Ok::<_, ConcurrencyError>(concurrency),
{
}

/// A fixed concurrency is the limit, and adaptive concurrency sets none, whatever the other one is.
pub proof fn law_configured_concurrency_decides(
    limit: usize,
    other: Concurrency,
    fixed: Option<usize>,
    adaptive: Option<usize>,
)
    requires
        call_ensures(Concurrency::parse_concurrency, (&Concurrency::Fixed(limit), other), fixed),
        call_ensures(Concurrency::parse_concurrency, (&Concurrency::Adaptive, other), adaptive),
    ensures
        fixed == Some(limit),
        adaptive == None::<usize>,
{
}

/// Where no concurrency is configured the other one is the limit if it is fixed, and there is none
/// if it is not.
pub proof fn law_other_concurrency_steps_in(other: Concurrency, limit: Option<usize>)
    requires
        call_ensures(Concurrency::parse_concurrency, (&Concurrency::Unset, other), limit),
    ensures
        other matches Concurrency::Fixed(number) ==> limit == Some(number),
        other == Concurrency::Adaptive ==> limit == None::<usize>,
        other == Concurrency::Unset ==> limit == None::<usize>,
{
}

/// The concurrency of a configuration that says nothing is unset.
pub proof fn law_default_concurrency_is_unset(concurrency: Concurrency)
    requires
        call_ensures(<Concurrency as Default>::default, (), concurrency),
    ensures
        concurrency == Concurrency::Unset,
{
}

/// The tuning of a configuration that says nothing is always the same, and adaptive concurrency
/// never lets more than two hundred requests run at once.
pub proof fn law_default_tuning(
    tuning: AdaptiveConcurrencySettings,
    default: AdaptiveConcurrencySettings,
    limit: usize,
)
    requires
        call_ensures(AdaptiveConcurrencySettings::const_default, (), tuning),
        call_ensures(<AdaptiveConcurrencySettings as Default>::default, (), default),
        call_ensures(AdaptiveConcurrencySettings::max_concurrency, (), limit),
    ensures
        default == tuning,
        tuning.decrease_ratio_bits == 0x3FEC_CCCC_CCCC_CCCDu64,
        tuning.ewma_alpha_bits == 0x3FD9_9999_9999_999Au64,
        tuning.rtt_deviation_scale_bits == 0x4004_0000_0000_0000u64,
        limit == 200,
{
}

} // verus!
