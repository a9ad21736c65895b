//! Rescaling of counter samples for a benchmark report.
//!
//! A benchmarking engine collects, for one hardware event, how often the
//! event was counted in each run, and asks a formatter to put these samples
//! into the unit in which it reports them. The samples are numbers of the
//! engine's own kind, which this module hands through without looking into
//! them: where a sample has to be replaced by a quotient, the caller
//! supplies the division.

use vstd::prelude::*;

verus! {

/// How much one run of a benchmark processes.
#[derive(Debug, Clone, Copy, PartialEq, Eq)]
pub enum Throughput {
    /// A number of bytes, to be reported in binary multiples.
    Bytes(u64),
    /// A number of bytes, to be reported in decimal multiples.
    BytesDecimal(u64),
    /// A number of elements.
    Elements(u64),
}

impl Throughput {
    /// The number of bytes or elements that one run processes.
    pub open spec fn amount(self) -> u64 {
        match self {
            Throughput::Bytes(bytes) => bytes,
            Throughput::BytesDecimal(bytes) => bytes,
            Throughput::Elements(elements) => elements,
        }
    }

    /// The unit of a throughput per counted event: bytes in either way of
    /// reporting them, or elements.
    pub open spec fn unit(self) -> Seq<char> {
        match self {
            Throughput::Bytes(_) => "Bytes/event"@,
            Throughput::BytesDecimal(_) => "Bytes/event"@,
            Throughput::Elements(_) => "elems/event"@,
        }
    }
}

/// Whether `scaled` holds, for each sample of `samples`, what `per_event`
/// may return for `amount` and that sample.
pub open spec fn rescaled<T, F: Fn(u64, &T) -> T>(
    per_event: F,
    amount: u64,
    samples: Seq<T>,
    scaled: Seq<T>,
) -> bool {
    &&& scaled.len() == samples.len()
    &&& forall|i: int|
        0 <= i < samples.len() ==> call_ensures(per_event, (amount, &samples[i]), #[trigger] scaled[i])
}

/// Formats the samples of one hardware event.
#[derive(Debug)]
pub struct SampleFormatter {
    event_name: &'static str,
}

impl View for SampleFormatter {
    type V = Seq<char>;

    /// The name of the event.
    closed spec fn view(&self) -> Seq<char> {
        self.event_name@
    }
}

impl Clone for SampleFormatter {
    /// A formatter for the same event.
    fn clone(&self) -> (copy: Self)
        ensures
            copy@ == self@,
    {
        Self { event_name: self.event_name }
    }
}

impl SampleFormatter {
    /// A formatter for the event `event_name`.
    pub fn new(event_name: &'static str) -> (formatter: Self)
        ensures
            formatter@ == event_name@,
    {
        Self { event_name }
    }

    /// Replaces each sample by what `per_event` makes of `amount` and the
    /// sample.
    fn rescale<T, F: Fn(u64, &T) -> T>(amount: u64, values: &mut [T], per_event: F)
        requires
            forall|i: int|
                0 <= i < old(values)@.len() ==> call_requires(
                    per_event,
                    (amount, &#[trigger] old(values)@[i]),
                ),
        ensures
            rescaled(per_event, amount, old(values)@, final(values)@),
    {
        let mut i: usize = 0;
        while i < values.len()
            invariant
                i <= values@.len(),
                values@.len() == old(values)@.len(),
                forall|j: int| i <= j < values@.len() ==> #[trigger] values@[j] == old(values)@[j],
                forall|j: int|
                    0 <= j < i ==> call_ensures(
                        per_event,
                        (amount, &old(values)@[j]),
                        #[trigger] values@[j],
                    ),
                forall|j: int|
                    0 <= j < old(values)@.len() ==> call_requires(
                        per_event,
                        (amount, &#[trigger] old(values)@[j]),
                    ),
            decreases values@.len() - i,
        {
            let scaled = per_event(amount, &values[i]);
            values[i] = scaled;
            i += 1;
        }
    }

    /// Turns events per run into bytes per event, for runs of `bytes` bytes.
    pub fn bytes_per_event<T, F: Fn(u64, &T) -> T>(
        &self,
        bytes: u64,
        values: &mut [T],
        per_event: F,
    ) -> (unit: &'static str)
        requires
            forall|i: int|
                0 <= i < old(values)@.len() ==> call_requires(
                    per_event,
                    (bytes, &#[trigger] old(values)@[i]),
                ),
        ensures
            unit@ == "Bytes/event"@,
            rescaled(per_event, bytes, old(values)@, final(values)@),
    {
        Self::rescale(bytes, values, per_event);
        "Bytes/event"
    }

    /// Turns events per run into elements per event, for runs of `elems`
    /// elements.
    pub fn elements_per_event<T, F: Fn(u64, &T) -> T>(
        &self,
        elems: u64,
        values: &mut [T],
        per_event: F,
    ) -> (unit: &'static str)
        requires
            forall|i: int|
                0 <= i < old(values)@.len() ==> call_requires(
                    per_event,
                    (elems, &#[trigger] old(values)@[i]),
                ),
        ensures
            unit@ == "elems/event"@,
            rescaled(per_event, elems, old(values)@, final(values)@),
    {
        Self::rescale(elems, values, per_event);
        "elems/event"
    }

    /// Leaves the samples as they are, and gives the event's name as their
    /// unit.
    pub fn scale_values<T>(&self, _typical_value: T, values: &mut [T]) -> (unit: &'static str)
        ensures
            unit@ == self@,
            final(values)@ == old(values)@,
    {
        self.event_name
    }

    /// Turns each sample, a number of events counted in one run, into the
    /// throughput per event: the quotient of what the run processes and the
    /// sample, which `per_event` computes. The unit is that of the
    /// throughput.
    pub fn scale_throughputs<T, F: Fn(u64, &T) -> T>(
        &self,
        _typical_value: T,
        throughput: &Throughput,
        values: &mut [T],
        per_event: F,
    ) -> (unit: &'static str)
        requires
            forall|i: int|
                0 <= i < old(values)@.len() ==> call_requires(
                    per_event,
                    (throughput.amount(), &#[trigger] old(values)@[i]),
                ),
        ensures
            unit@ == throughput.unit(),
            rescaled(per_event, throughput.amount(), old(values)@, final(values)@),
    {
        match *throughput {
            Throughput::Bytes(bytes) => self.bytes_per_event(bytes, values, per_event),
            Throughput::BytesDecimal(bytes) => self.bytes_per_event(bytes, values, per_event),
            Throughput::Elements(elems) => self.elements_per_event(elems, values, per_event),
        }
    }

    /// Leaves the samples as they are, and gives the event's name as their
    /// unit.
    pub fn scale_for_machines<T>(&self, values: &mut [T]) -> (unit: &'static str)
        ensures
            unit@ == self@,
            final(values)@ == old(values)@,
    {
        self.event_name
    }
}

} // verus!
