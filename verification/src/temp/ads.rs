//! The analog-to-digital converter: its errors, its addresses and inputs, and sampling.
use vstd::prelude::*;

use crate::temp::convert::{average_raw, law_mean_of_samples, mean};
use crate::text::{decimal, decimal_text, lower_hex_byte, lower_hex_byte_text};

verus! {

/// What kind of thing went wrong with the converter.
#[derive(Debug, Clone, Copy, PartialEq, Eq, Structural)]
pub enum AdsErrorKind {
    Open,
    I2c,
    Config,
    OutOfRange,
}

/// What went wrong with the converter.
#[derive(Debug, Clone)]
pub struct AdsError {
    pub kind: AdsErrorKind,
    pub message: String,
}

/// The name of a kind.
pub open spec fn kind_name(kind: AdsErrorKind) -> Seq<char> {
    match kind {
        AdsErrorKind::Open => "Open"@,
        AdsErrorKind::I2c => "I2c"@,
        AdsErrorKind::Config => "Config"@,
        AdsErrorKind::OutOfRange => "OutOfRange"@,
    }
}

impl AdsError {
    /// The kind and the message as one text.
    pub fn text(&self) -> (text: String)
        ensures
            text@ == kind_name(self.kind) + ": "@ + self.message@,
    {
        let mut text = match self.kind {
            AdsErrorKind::Open => "Open".to_owned(),
            AdsErrorKind::I2c => "I2c".to_owned(),
            AdsErrorKind::Config => "Config".to_owned(),
            AdsErrorKind::OutOfRange => "OutOfRange".to_owned(),
        };
        text.append(": ");
        text.append(self.message.as_str());
        text
    }

    /// The same error once more.
    pub fn duplicate(&self) -> (copy: AdsError)
        ensures
            copy == *self,
    {
        AdsError { kind: self.kind, message: self.message.clone() }
    }
}

/// A reader of single-ended inputs.
pub trait AdsReader {
    /// The raw reading of an input.
    fn read_single_ended(&mut self, channel: u8) -> Result<i16, AdsError>;
}

/// A reader that gives fixed results, in turn and over again.
#[derive(Debug, Clone)]
pub struct MockAdsReader {
    pub values: Vec<Result<i16, AdsError>>,
    pub index: usize,
}

impl MockAdsReader {
    /// A reader that always gives `raw`.
    #[must_use]
    pub fn always(raw: i16) -> (reader: Self)
        ensures
            reader.values@ == seq![Ok::<i16, AdsError>(raw)],
            reader.index == 0,
    {
        let mut values: Vec<Result<i16, AdsError>> = Vec::new();
        values.push(Ok(raw));
        assert(values@ =~= seq![Ok::<i16, AdsError>(raw)]);
        MockAdsReader { values, index: 0 }
    }

    /// A reader that always fails.
    #[must_use]
    pub fn failing(kind: AdsErrorKind, message: &str) -> (reader: Self)
        ensures
            reader.values@.len() == 1,
            reader.values@[0] matches Err(error) && error.kind == kind && error.message@
                == message@,
            reader.index == 0,
    {
        let mut values: Vec<Result<i16, AdsError>> = Vec::new();
        values.push(Err(AdsError { kind, message: message.to_owned() }));
        MockAdsReader { values, index: 0 }
    }
}

impl AdsReader for MockAdsReader {
    fn read_single_ended(&mut self, channel: u8) -> (reading: Result<i16, AdsError>)
        ensures
            final(self).values == old(self).values,
            old(self).values@.len() > 0 ==> reading == old(self).values@[old(self).index as int
                % old(self).values@.len() as int],
            old(self).values@.len() > 0 ==> final(self).index == if old(self).index < usize::MAX {
                (old(self).index + 1) as usize
            } else {
                0
            },
            old(self).values@.len() == 0 ==> (reading matches Err(error) && error.kind
                == AdsErrorKind::I2c && error.message@ == "empty mock"@),
            old(self).values@.len() == 0 ==> final(self).index == old(self).index,
    {
        if self.values.len() == 0 {
            return Err(AdsError { kind: AdsErrorKind::I2c, message: "empty mock".to_owned() });
        }
        let i: usize = self.index % self.values.len();
        self.index = if self.index < usize::MAX {
            self.index + 1
        } else {
            0
        };
        match &self.values[i] {
            Ok(raw) => Ok(*raw),
            Err(error) => Err(error.duplicate()),
        }
    }
}

/// A stand-in for a converter that is not there: every reading fails.
#[derive(Debug, Clone)]
pub struct UnavailableAds {
    pub device: String,
    pub address: u8,
}

/// The message of a reading of a converter that is not there.
pub open spec fn unavailable_text(device: Seq<char>, address: u8) -> Seq<char> {
    "ADS1115 unavailable ("@ + device + " @ 0x"@ + lower_hex_byte_text(address) + ")"@
}

impl AdsReader for UnavailableAds {
    fn read_single_ended(&mut self, channel: u8) -> (reading: Result<i16, AdsError>)
        ensures
            *final(self) == *old(self),
            reading matches Err(error) && error.kind == AdsErrorKind::Open && error.message@
                == unavailable_text(old(self).device@, old(self).address),
    {
        let mut message = "ADS1115 unavailable (".to_owned();
        message.append(self.device.as_str());
        message.append(" @ 0x");
        let digits = lower_hex_byte(self.address);
        message.append(digits.as_str());
        message.append(")");
        Err(AdsError { kind: AdsErrorKind::Open, message })
    }
}

/// What the converter's address pin is tied to.
#[derive(Debug, Clone, Copy, PartialEq, Eq, Structural)]
pub enum AddressPin {
    Gnd,
    Vdd,
    Sda,
    Scl,
}

/// The pin for an address, if the converter can have it.
pub open spec fn pin_of_address(address: u8) -> Option<AddressPin> {
    if address == 0x48 {
        Some(AddressPin::Gnd)
    } else if address == 0x49 {
        Some(AddressPin::Vdd)
    } else if address == 0x4A {
        Some(AddressPin::Sda)
    } else if address == 0x4B {
        Some(AddressPin::Scl)
    } else {
        None
    }
}

/// The message for an address that the converter cannot have.
pub open spec fn bad_address_text(address: u8) -> Seq<char> {
    "unsupported ADS1115 address 0x"@ + lower_hex_byte_text(address)
}

/// The pin for an address, or an error where the converter cannot have it.
pub fn target_addr(address: u8) -> (pin: Result<AddressPin, AdsError>)
    ensures
        match pin {
            Ok(found) => pin_of_address(address) == Some(found),
            Err(error) => pin_of_address(address) is None && error.kind == AdsErrorKind::Config
                && error.message@ == bad_address_text(address),
        },
{
    match address {
        0x48 => Ok(AddressPin::Gnd),
        0x49 => Ok(AddressPin::Vdd),
        0x4A => Ok(AddressPin::Sda),
        0x4B => Ok(AddressPin::Scl),
        _ => {
            let mut message = "unsupported ADS1115 address 0x".to_owned();
            let digits = lower_hex_byte(address);
            message.append(digits.as_str());
            Err(AdsError { kind: AdsErrorKind::Config, message })
        },
    }
}

/// A single-ended input of the converter.
#[derive(Debug, Clone, Copy, PartialEq, Eq, Structural)]
pub enum AdsInput {
    A0,
    A1,
    A2,
    A3,
}

/// The input for a channel number, if there is one.
pub open spec fn input_of_channel(channel: u8) -> Option<AdsInput> {
    if channel == 0 {
        Some(AdsInput::A0)
    } else if channel == 1 {
        Some(AdsInput::A1)
    } else if channel == 2 {
        Some(AdsInput::A2)
    } else if channel == 3 {
        Some(AdsInput::A3)
    } else {
        None
    }
}

/// The message for a channel number without an input.
pub open spec fn bad_channel_text(channel: u8) -> Seq<char> {
    "channel "@ + decimal_text(channel as nat) + " out of range (0..=3)"@
}

/// The input for a channel number, or an error where there is none.
pub fn target_input(channel: u8) -> (input: Result<AdsInput, AdsError>)
    ensures
        match input {
            Ok(found) => input_of_channel(channel) == Some(found),
            Err(error) => input_of_channel(channel) is None && error.kind == AdsErrorKind::Config
                && error.message@ == bad_channel_text(channel),
        },
{
    match channel {
        0 => Ok(AdsInput::A0),
        1 => Ok(AdsInput::A1),
        2 => Ok(AdsInput::A2),
        3 => Ok(AdsInput::A3),
        _ => {
            let mut message = "channel ".to_owned();
            let digits = decimal(channel as u64);
            message.append(digits.as_str());
            message.append(" out of range (0..=3)");
            Err(AdsError { kind: AdsErrorKind::Config, message })
        },
    }
}

/// Opens the reader of a host without a converter. The address is checked all the same.
pub fn open_ads_reader(device: &str, address: u8) -> (reader: Result<UnavailableAds, AdsError>)
    ensures
        match reader {
            Ok(ads) => pin_of_address(address) is Some && ads.device@ == device@ && ads.address
                == address,
            Err(error) => pin_of_address(address) is None && error.kind == AdsErrorKind::Config
                && error.message@ == bad_address_text(address),
        },
{
    match target_addr(address) {
        Ok(_pin) => Ok(UnavailableAds { device: device.to_owned(), address }),
        Err(error) => Err(error),
    }
}

/// What sampling does next.
#[derive(Debug, Clone, Copy, PartialEq, Eq, Structural)]
pub enum SampleStep {
    /// Read the input.
    Read,
    /// Wait between two readings.
    Pause,
    /// There is a result.
    Finished,
}

/// Sampling an input a number of times, up to the first error.
#[derive(Debug)]
pub struct Sampler {
    wanted: usize,
    paced: bool,
    samples: Vec<i16>,
    pausing: bool,
    fault: Option<AdsError>,
}

/// What a [`Sampler`] holds.
pub struct SamplerView {
    /// Number of readings that are averaged.
    pub wanted: nat,
    /// Whether there is a pause between readings.
    pub paced: bool,
    pub samples: Seq<i16>,
    /// Whether a pause is due.
    pub pausing: bool,
    pub fault: Option<AdsError>,
}

/// The number of readings for a configured number: at least one.
pub open spec fn readings_wanted(sample_count: u8) -> nat {
    if sample_count == 0 {
        1
    } else {
        sample_count as nat
    }
}

impl SamplerView {
    /// Sampling that is about to start.
    pub open spec fn started(sample_count: u8, sample_delay_ms: u64) -> SamplerView {
        SamplerView {
            wanted: readings_wanted(sample_count),
            paced: sample_delay_ms > 0,
            samples: Seq::empty(),
            pausing: false,
            fault: None,
        }
    }

    /// What is to be done next.
    pub open spec fn step(self) -> SampleStep {
        if self.fault is Some || self.samples.len() >= self.wanted {
            SampleStep::Finished
        } else if self.pausing {
            SampleStep::Pause
        } else {
            SampleStep::Read
        }
    }

    /// Sampling after a reading.
    pub open spec fn after_reading(self, reading: Result<i16, AdsError>) -> SamplerView {
        match reading {
            Ok(raw) => SamplerView {
                samples: self.samples.push(raw),
                pausing: self.paced,
                ..self
            },
            Err(error) => SamplerView { fault: Some(error), ..self },
        }
    }

    /// The outcome: the error if there was one, else the mean of the readings.
    pub open spec fn is_outcome(self, result: Result<i16, AdsError>) -> bool {
        match self.fault {
            Some(error) => result == Err::<i16, AdsError>(error),
            None => match mean(self.samples) {
                Some(average) => result matches Ok(raw) && raw == average,
                None => result matches Err(error) && error.kind == AdsErrorKind::OutOfRange
                    && error.message@ == "empty sample set"@,
            },
        }
    }
}

impl View for Sampler {
    type V = SamplerView;

    closed spec fn view(&self) -> SamplerView {
        SamplerView {
            wanted: self.wanted as nat,
            paced: self.paced,
            samples: self.samples@,
            pausing: self.pausing,
            fault: self.fault,
        }
    }
}

impl Sampler {
    /// Starts sampling: `sample_count` readings, at least one, with a pause between each two
    /// where `sample_delay_ms` is not zero.
    pub fn new(sample_count: u8, sample_delay_ms: u64) -> (sampler: Self)
        ensures
            sampler@ == SamplerView::started(sample_count, sample_delay_ms),
    {
        let wanted: usize = if sample_count == 0 {
            1
        } else {
            sample_count as usize
        };
        Sampler {
            wanted,
            paced: sample_delay_ms > 0,
            samples: Vec::new(),
            pausing: false,
            fault: None,
        }
    }

    /// What is to be done next.
    pub fn step(&self) -> (step: SampleStep)
        ensures
            step == self@.step(),
    {
        if self.fault.is_some() || self.samples.len() >= self.wanted {
            SampleStep::Finished
        } else if self.pausing {
            SampleStep::Pause
        } else {
            SampleStep::Read
        }
    }

    /// Takes in a reading.
    pub fn on_reading(&mut self, reading: Result<i16, AdsError>)
        ensures
            final(self)@ == old(self)@.after_reading(reading),
    {
        match reading {
            Ok(raw) => {
                self.samples.push(raw);
                self.pausing = self.paced;
            },
            Err(error) => {
                self.fault = Some(error);
            },
        }
    }

    /// Takes in that a pause is over.
    pub fn on_pause(&mut self)
        ensures
            final(self)@ == (SamplerView { pausing: false, ..old(self)@ }),
    {
        self.pausing = false;
    }

    /// The outcome of sampling.
    pub fn finish(self) -> (result: Result<i16, AdsError>)
        ensures
            self@.is_outcome(result),
    {
        if let Some(error) = self.fault {
            return Err(error);
        }
        match average_raw(self.samples.as_slice()) {
            Some(raw) => Ok(raw),
            None => Err(
                AdsError {
                    kind: AdsErrorKind::OutOfRange,
                    message: "empty sample set".to_owned(),
                },
            ),
        }
    }
}

/// The readings of a list up to and with the first error.
pub open spec fn sampled(start: SamplerView, readings: Seq<Result<i16, AdsError>>) -> SamplerView
    decreases readings.len(),
{
    if readings.len() == 0 {
        start
    } else {
        let before = sampled(start, readings.drop_last());
        if before.step() == SampleStep::Finished {
            before
        } else {
            SamplerView { pausing: false, ..before }.after_reading(readings.last())
        }
    }
}

/// Sampling takes exactly the wanted number of good readings, and its outcome is their mean.
pub proof fn law_good_readings_are_averaged(
    sample_count: u8,
    sample_delay_ms: u64,
    samples: Seq<i16>,
)
    requires
        samples.len() == readings_wanted(sample_count),
    ensures
        ({
            let readings = samples.map_values(|raw: i16| Ok::<i16, AdsError>(raw));
            let end = sampled(SamplerView::started(sample_count, sample_delay_ms), readings);
            &&& end.step() == SampleStep::Finished
            &&& end.fault is None
            &&& end.samples == samples
            &&& forall|result: Result<i16, AdsError>| #[trigger]
                end.is_outcome(result) ==> (result matches Ok(raw) && mean(samples) == Some(
                    raw as int,
                ))
        }),
{
    lemma_good_readings(sample_count, sample_delay_ms, samples, samples.len() as int);
    assert(samples.take(samples.len() as int) == samples);
}

proof fn lemma_good_readings(
    sample_count: u8,
    sample_delay_ms: u64,
    samples: Seq<i16>,
    k: int,
)
    requires
        0 <= k <= samples.len() == readings_wanted(sample_count),
    ensures
        ({
            let readings = samples.take(k).map_values(|raw: i16| Ok::<i16, AdsError>(raw));
            let start = SamplerView::started(sample_count, sample_delay_ms);
            let end = sampled(start, readings);
            &&& end.samples == samples.take(k)
            &&& end.fault is None
            &&& end.wanted == start.wanted
        }),
    decreases k,
{
    let readings = samples.take(k).map_values(|raw: i16| Ok::<i16, AdsError>(raw));
    if k > 0 {
        lemma_good_readings(sample_count, sample_delay_ms, samples, k - 1);
        assert(readings.drop_last() =~= samples.take(k - 1).map_values(
            |raw: i16| Ok::<i16, AdsError>(raw),
        ));
        assert(readings.last() == Ok::<i16, AdsError>(samples[k - 1]));
        assert(samples.take(k - 1).push(samples[k - 1]) =~= samples.take(k));
    }
}

/// The first error ends sampling, and is its outcome.
pub proof fn law_first_error_ends_sampling(sampler: SamplerView, error: AdsError)
    requires
        sampler.step() == SampleStep::Read,
    ensures
        ({
            let end = sampler.after_reading(Err(error));
            &&& end.step() == SampleStep::Finished
            &&& forall|result: Result<i16, AdsError>|
                #[trigger] end.is_outcome(result) ==> result == Err::<i16, AdsError>(error)
        }),
{
}

/// Whether there is a reading number `i`.
pub open spec fn has_reading(readings: Seq<Result<i16, AdsError>>, i: int) -> bool {
    0 <= i < readings.len()
}

/// Whether `readings` are what unpaced sampling takes, no fewer and no more, with `readers` the
/// reader before the first of them and after each.
pub open spec fn sampling_run<R>(
    readers: Seq<R>,
    readings: Seq<Result<i16, AdsError>>,
    sample_count: u8,
) -> bool {
    let start = SamplerView::started(sample_count, 0);
    &&& readers.len() == readings.len() + 1
    &&& sampled(start, readings).step() == SampleStep::Finished
    &&& forall|k: int|
        0 <= k < readings.len() ==> (#[trigger] sampled(start, readings.take(k))).step()
            == SampleStep::Read
}

/// Samples an input without pauses: the mean of `sample_count` readings, at least one, or the
/// first error.
///
/// What a reading gives is up to the reader. The input `channel` is read as often as sampling
/// takes, by one call of the reader after the other, and the outcome is that of these readings.
pub fn sample_average<R: AdsReader>(reader: &mut R, channel: u8, sample_count: u8) -> (average:
    Result<i16, AdsError>)
    ensures
        exists|readers: Seq<R>, readings: Seq<Result<i16, AdsError>>|
            {
                &&& #[trigger] sampling_run(readers, readings, sample_count)
                &&& readers[0] == *old(reader)
                &&& readers[readings.len() as int] == *final(reader)
                &&& forall|i: int|
                    #[trigger]
                    has_reading(readings, i) ==> exists|call: &mut R|
                        #![trigger call_ensures(R::read_single_ended, (call, channel), readings[i])]
                        *call == readers[i] && *final(call) == readers[i + 1] && call_ensures(
                            R::read_single_ended,
                            (call, channel),
                            readings[i],
                        )
                &&& sampled(
                    SamplerView::started(sample_count, 0),
                    readings,
                ).is_outcome(average)
            },
        average matches Ok(raw) ==> exists|samples: Seq<i16>|
            samples.len() == readings_wanted(sample_count) && #[trigger] mean(samples) == Some(
                raw as int,
            ),
{
    let mut sampler = Sampler::new(sample_count, 0);
    let ghost start = sampler@;
    let ghost mut readers: Seq<R> = seq![*reader];
    let ghost mut readings: Seq<Result<i16, AdsError>> = Seq::empty();
    while sampler.step() == SampleStep::Read
        invariant
            start == SamplerView::started(sample_count, 0),
            sampler@ == sampled(start, readings),
            sampler@.wanted == start.wanted,
            !sampler@.pausing,
            !sampler@.paced,
            sampler@.samples.len() <= start.wanted,
            readers.len() == readings.len() + 1,
            readers[0] == *old(reader),
            readers[readings.len() as int] == *reader,
            forall|k: int|
                0 <= k < readings.len() ==> (#[trigger] sampled(start, readings.take(k))).step()
                    == SampleStep::Read,
            forall|i: int|
                #[trigger]
                has_reading(readings, i) ==> exists|call: &mut R|
                    #![trigger call_ensures(R::read_single_ended, (call, channel), readings[i])]
                    *call == readers[i] && *final(call) == readers[i + 1] && call_ensures(
                        R::read_single_ended,
                        (call, channel),
                        readings[i],
                    ),
        decreases
                (start.wanted - sampler@.samples.len()) + if sampler@.fault is None {
                    1int
                } else {
                    0
                },
    {
        let ghost previous = *reader;
        let reading = reader.read_single_ended(channel);
        assert(exists|call: &mut R|
            #![trigger call_ensures(R::read_single_ended, (call, channel), reading)]
            *call == previous && *final(call) == *reader && call_ensures(
                R::read_single_ended,
                (call, channel),
                reading,
            ));
        proof {
            let earlier = readings;
            let passed = readers;
            readings = earlier.push(reading);
            readers = readers.push(*reader);
            assert(readings.drop_last() == earlier);
            assert forall|k: int| 0 <= k < readings.len() implies (
            #[trigger] sampled(start, readings.take(k))).step() == SampleStep::Read by {
                if k < earlier.len() {
                    assert(readings.take(k) == earlier.take(k));
                } else {
                    assert(readings.take(k) == earlier);
                }
            }
            assert forall|i: int| #[trigger] has_reading(readings, i) implies exists|call: &mut R|
                #![trigger call_ensures(R::read_single_ended, (call, channel), readings[i])]
                *call == readers[i] && *final(call) == readers[i + 1] && call_ensures(
                    R::read_single_ended,
                    (call, channel),
                    readings[i],
                ) by {
                if i < earlier.len() {
                    assert(has_reading(earlier, i));
                    assert(readings[i] == earlier[i]);
                    assert(readers[i] == passed[i] && readers[i + 1] == passed[i + 1]);
                } else {
                    assert(readings[i] == reading);
                    assert(readers[i] == previous && readers[i + 1] == *reader);
                }
            }
        }
        sampler.on_reading(reading);
    }
    assert(sampling_run(readers, readings, sample_count));
    let ghost end = sampler@;
    let average = sampler.finish();
    assert(average matches Ok(raw) ==> mean(end.samples) == Some(raw as int));
    average
}

/// The error for a mean reading that cannot be converted into a temperature.
pub fn rejected_conversion(raw: i16) -> (error: AdsError)
    ensures
        error.kind == AdsErrorKind::OutOfRange,
        error.message@ == "conversion rejected raw="@ + crate::text::signed_text(raw as int),
{
    let mut message = "conversion rejected raw=".to_owned();
    let digits = crate::text::signed_decimal(raw as i32);
    message.append(digits.as_str());
    AdsError { kind: AdsErrorKind::OutOfRange, message }
}

/// The converter has four addresses from `48` on, for its address pin tied to ground, supply, data
/// and clock in this order, and four inputs from 0 on.
pub proof fn law_converter_wiring(address: u8, channel: u8)
    ensures
        pin_of_address(address) is Some <==> 0x48 <= address <= 0x4B,
        pin_of_address(0x48) == Some(AddressPin::Gnd),
        pin_of_address(0x49) == Some(AddressPin::Vdd),
        pin_of_address(0x4A) == Some(AddressPin::Sda),
        pin_of_address(0x4B) == Some(AddressPin::Scl),
        input_of_channel(channel) is Some <==> channel <= 3,
        input_of_channel(0) == Some(AdsInput::A0),
        input_of_channel(1) == Some(AdsInput::A1),
        input_of_channel(2) == Some(AdsInput::A2),
        input_of_channel(3) == Some(AdsInput::A3),
{
}

/// What the converter's errors say.
pub proof fn law_converter_texts(device: Seq<char>, address: u8, channel: u8)
    ensures
        unavailable_text(device, address) == "ADS1115 unavailable ("@ + device + " @ 0x"@
            + lower_hex_byte_text(address) + ")"@,
        bad_address_text(address) == "unsupported ADS1115 address 0x"@ + lower_hex_byte_text(
            address,
        ),
        bad_channel_text(channel) == "channel "@ + decimal_text(channel as nat)
            + " out of range (0..=3)"@,
        kind_name(AdsErrorKind::Open) == "Open"@,
        kind_name(AdsErrorKind::I2c) == "I2c"@,
        kind_name(AdsErrorKind::Config) == "Config"@,
        kind_name(AdsErrorKind::OutOfRange) == "OutOfRange"@,
{
}

/// Sampling reads until it has as many readings as are set, at least one, or until an error. Between
/// two readings it pauses, unless the delay is zero. A good reading is kept after those before it.
pub proof fn law_sampling_steps(
    sample_count: u8,
    sample_delay_ms: u64,
    sampler: SamplerView,
    raw: i16,
    error: AdsError,
)
    ensures
        ({
            let start = SamplerView::started(sample_count, sample_delay_ms);
            &&& start.wanted >= 1
            &&& start.wanted >= sample_count
            &&& start.wanted == 1 || start.wanted == sample_count
            &&& start.paced <==> sample_delay_ms != 0
            &&& start.samples.len() == 0
            &&& start.step() == SampleStep::Read
        }),
        sampler.step() == SampleStep::Finished <==> sampler.fault is Some || sampler.samples.len()
            >= sampler.wanted,
        sampler.step() == SampleStep::Pause <==> sampler.fault is None && sampler.samples.len()
            < sampler.wanted && sampler.pausing,
        ({
            let after = sampler.after_reading(Ok(raw));
            &&& after.samples.len() == sampler.samples.len() + 1
            &&& after.samples.drop_last() == sampler.samples
            &&& after.samples.last() == raw
            &&& after.pausing == sampler.paced
            &&& after.fault == sampler.fault
            &&& after.wanted == sampler.wanted
            &&& after.paced == sampler.paced
        }),
        ({
            let after = sampler.after_reading(Err(error));
            &&& after.fault == Some(error)
            &&& after.samples == sampler.samples
            &&& after.wanted == sampler.wanted
        }),
{
    assert(sampler.samples.push(raw).drop_last() =~= sampler.samples);
}

/// The outcome of sampling is its error, or else the mean of its readings; without either it is an
/// error of its own.
pub proof fn law_sampling_outcome(sampler: SamplerView, result: Result<i16, AdsError>)
    ensures
        sampler.fault matches Some(error) ==> (sampler.is_outcome(result) <==> result == Err::<
            i16,
            AdsError,
        >(error)),
        sampler.fault is None && sampler.samples.len() > 0 ==> (sampler.is_outcome(result)
            <==> result is Ok && mean(sampler.samples) == Some(result->Ok_0 as int)),
        sampler.fault is None && sampler.samples.len() == 0 ==> (sampler.is_outcome(result)
            <==> result is Err && result->Err_0.kind == AdsErrorKind::OutOfRange
            && result->Err_0.message@ == "empty sample set"@),
{
    law_mean_of_samples(sampler.samples);
}

/// Whether readings are all good but for the last, which may be an error.
pub open spec fn good_but_last(readings: Seq<Result<i16, AdsError>>) -> bool {
    forall|i: int| 0 <= i < readings.len() - 1 ==> (#[trigger] readings[i]) is Ok
}

proof fn lemma_sampled_prefix(sample_count: u8, readings: Seq<Result<i16, AdsError>>, k: int)
    requires
        0 <= k <= readings.len(),
        forall|j: int|
            0 <= j < k ==> (#[trigger] sampled(
                SamplerView::started(sample_count, 0),
                readings.take(j),
            )).step() == SampleStep::Read,
    ensures
        ({
            let start = SamplerView::started(sample_count, 0);
            let end = sampled(start, readings.take(k));
            &&& good_but_last(readings.take(k))
            &&& end.wanted == start.wanted
            &&& k == 0 || readings[k - 1] is Ok ==> end.fault is None && end.samples.len() == k && (
            forall|i: int|
                0 <= i < k ==> (#[trigger] readings[i]) == Ok::<i16, AdsError>(end.samples[i]))
            &&& k > 0 && readings[k - 1] is Err ==> end.fault == Some(readings[k - 1]->Err_0)
        }),
    decreases k,
{
    let start = SamplerView::started(sample_count, 0);
    if k == 0 {
        assert(readings.take(0) =~= Seq::<Result<i16, AdsError>>::empty());
    } else {
        lemma_sampled_prefix(sample_count, readings, k - 1);
        let before = sampled(start, readings.take(k - 1));
        let end = sampled(start, readings.take(k));
        assert(before.step() == SampleStep::Read);
        assert(readings.take(k).drop_last() =~= readings.take(k - 1));
        assert(readings.take(k).last() == readings[k - 1]);
        assert(k - 1 == 0 || readings[k - 2] is Ok);
        assert forall|i: int| 0 <= i < readings.take(k).len() - 1 implies (
        #[trigger] readings.take(k)[i]) is Ok by {
            assert(readings[i] == Ok::<i16, AdsError>(before.samples[i]));
        }
        if readings[k - 1] is Ok {
            assert forall|i: int| 0 <= i < k implies (#[trigger] readings[i]) == Ok::<
                i16,
                AdsError,
            >(end.samples[i]) by {
                if i < k - 1 {
                    assert(readings[i] == Ok::<i16, AdsError>(before.samples[i]));
                }
            }
        }
    }
}

/// Sampling takes as many readings as are set, at least one, or fewer where one is an error: that is
/// then the last, and the outcome. Without an error the outcome is the mean of all the readings.
pub proof fn law_sampling_takes_all<R>(
    readers: Seq<R>,
    readings: Seq<Result<i16, AdsError>>,
    sample_count: u8,
    samples: Seq<i16>,
    result: Result<i16, AdsError>,
)
    requires
        sampling_run(readers, readings, sample_count),
    ensures
        readers.len() == readings.len() + 1,
        readings.len() >= 1,
        forall|i: int| #[trigger] has_reading(readings, i) <==> 0 <= i < readings.len(),
        forall|i: int| 0 <= i < readings.len() - 1 ==> (#[trigger] readings[i]) is Ok,
        readings.last() is Ok && sample_count >= 1 ==> readings.len() == sample_count,
        readings.last() is Ok && sample_count == 0 ==> readings.len() == 1,
        readings.len() <= 1 || readings.len() <= sample_count,
        ({
            let end = sampled(SamplerView::started(sample_count, 0), readings);
            &&& readings.last() matches Err(error) ==> (end.is_outcome(result) <==> result == Err::<
                i16,
                AdsError,
            >(error))
            &&& samples.len() == readings.len() && (forall|i: int|
                0 <= i < readings.len() ==> (#[trigger] readings[i]) == Ok::<i16, AdsError>(
                    samples[i],
                )) ==> (end.is_outcome(result) <==> result is Ok && mean(samples) == Some(
                result->Ok_0 as int,
            ))
        }),
{
    let start = SamplerView::started(sample_count, 0);
    let n = readings.len() as int;
    let end = sampled(start, readings);
    assert(readings.take(n) =~= readings);
    lemma_sampled_prefix(sample_count, readings, n);
    assert(n > 0) by {
        if n == 0 {
            assert(end.step() == SampleStep::Read);
        }
    }
    lemma_sampled_prefix(sample_count, readings, n - 1);
    let before = sampled(start, readings.take(n - 1));
    assert(before.step() == SampleStep::Read);
    assert forall|i: int| 0 <= i < n - 1 implies (#[trigger] readings[i]) is Ok by {
        assert(readings.take(n)[i] is Ok);
    }
    law_sampling_outcome(end, result);
    if samples.len() == n && (forall|i: int|
        0 <= i < n ==> (#[trigger] readings[i]) == Ok::<i16, AdsError>(samples[i])) {
        assert(readings[n - 1] is Ok);
        assert forall|i: int| 0 <= i < n implies end.samples[i] == samples[i] by {
            assert(readings[i] == Ok::<i16, AdsError>(samples[i]));
        }
        assert(end.samples =~= samples);
    }
}

} // verus!
