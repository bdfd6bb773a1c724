use qubit_codec::value::codec_value_lifecycle::exact_decode_outcome;
use qubit_codec::value::codec_value_lifecycle::max_complete_encode_units;
use qubit_codec::Codec;
use qubit_codec::CodecValueDecoder;
use qubit_codec::CodecValueEncoder;
use qubit_codec::CodecValueExt;
use qubit_codec::DecodeFailure;
use qubit_codec::NonZeroUsize;
use qubit_codec::TranscodeDecodeError;
use qubit_codec::TranscodeEncodeError;
use qubit_codec::TranscodeError;
use qubit_codec::TranscodeFailure;
use qubit_codec::ValueDecoder;
use qubit_codec::ValueEncoder;

/// Fixed-width big-endian `u16` codec.
#[derive(Debug, Default)]
struct U16BeCodec;

#[derive(Debug, Clone, Copy, PartialEq, Eq)]
struct Never;

impl Codec for U16BeCodec {
    type Value = u16;
    type Unit = u8;
    type DecodeError = Never;
    type EncodeError = Never;

    const MIN_UNITS_PER_VALUE: usize = 2;
    const MAX_ENCODE_UNITS_PER_VALUE: usize = 2;
    const MAX_DECODE_UNITS_PER_VALUE: usize = 2;

    fn decode(
        &mut self,
        input: &[u8],
        input_index: usize,
    ) -> Result<(u16, NonZeroUsize), DecodeFailure<Never>> {
        let value = u16::from_be_bytes([input[input_index], input[input_index + 1]]);
        Ok((value, NonZeroUsize::new(2).unwrap()))
    }

    fn decode_eof(
        &mut self,
        input: &[u8],
        input_index: usize,
    ) -> Result<(u16, NonZeroUsize), DecodeFailure<Never>> {
        self.decode(input, input_index)
    }

    fn spec_decode(&self, input: &[u8], input_index: usize) -> Result<(u16, NonZeroUsize), DecodeFailure<Never>> {
        let value = u16::from_be_bytes([input[input_index], input[input_index + 1]]);
        Ok((value, NonZeroUsize::new(2).unwrap()))
    }

    fn spec_decode_eof(&self, input: &[u8], input_index: usize) -> Result<(u16, NonZeroUsize), DecodeFailure<Never>> {
        self.spec_decode(input, input_index)
    }

    fn spec_encode(&self, value: u16) -> Result<Vec<u8>, Never> {
        Ok(value.to_be_bytes().to_vec())
    }

    fn spec_encode_len(&self, _value: u16) -> usize {
        2
    }

    fn spec_can_encode(&self, _value: u16) -> bool {
        true
    }

    fn can_encode_value(&self, _value: &u16) -> bool {
        true
    }

    fn encode_len(&self, _value: &u16) -> usize {
        2
    }

    fn encode(&mut self, value: &u16, output: &mut [u8], output_index: usize) -> Result<usize, Never> {
        output[output_index..output_index + 2].copy_from_slice(&value.to_be_bytes());
        Ok(2)
    }

    fn spec_after_encode(&self, _value: u16) -> Self {
        U16BeCodec
    }

    fn spec_encode_reset(&self) -> Result<Vec<u8>, Never> {
        Ok(vec![])
    }

    fn spec_after_encode_reset(&self) -> Self {
        U16BeCodec
    }

    fn spec_encode_finish(&self) -> Result<Vec<u8>, Never> {
        Ok(vec![])
    }

    fn spec_after_encode_finish(&self) -> Self {
        U16BeCodec
    }

    fn spec_after_decode(&self, _input: &[u8], _input_index: usize) -> Self {
        U16BeCodec
    }

    fn spec_after_decode_eof(&self, _input: &[u8], _input_index: usize) -> Self {
        U16BeCodec
    }

    fn spec_decode_reset(&self) -> Result<Vec<u16>, Never> {
        Ok(vec![])
    }

    fn spec_after_decode_reset(&self) -> Self {
        U16BeCodec
    }

    fn spec_decode_finish(&self) -> Result<Vec<u16>, Never> {
        Ok(vec![])
    }

    fn spec_after_decode_finish(&self) -> Self {
        U16BeCodec
    }

    fn encode_reset(&mut self, _output: &mut [u8], _output_index: usize) -> Result<usize, Never> {
        Ok(0)
    }

    fn encode_finish(&mut self, _output: &mut [u8], _output_index: usize) -> Result<usize, Never> {
        Ok(0)
    }

    fn decode_reset(&mut self, _output: &mut [u16], _output_index: usize) -> Result<usize, Never> {
        Ok(0)
    }

    fn decode_finish(&mut self, _output: &mut [u16], _output_index: usize) -> Result<usize, Never> {
        Ok(0)
    }
}

/// A codec of ASCII digits that refuses non-digits and cannot encode values
/// above nine.
#[derive(Debug, Default)]
struct DigitCodec;

#[derive(Debug, Clone, Copy, PartialEq, Eq)]
struct NotADigit(u8);

impl Codec for DigitCodec {
    type Value = u8;
    type Unit = u8;
    type DecodeError = NotADigit;
    type EncodeError = NotADigit;

    const MIN_UNITS_PER_VALUE: usize = 1;
    const MAX_ENCODE_UNITS_PER_VALUE: usize = 1;
    const MAX_DECODE_UNITS_PER_VALUE: usize = 1;

    fn decode(
        &mut self,
        input: &[u8],
        input_index: usize,
    ) -> Result<(u8, NonZeroUsize), DecodeFailure<NotADigit>> {
        let byte = input[input_index];
        if byte.is_ascii_digit() {
            Ok((byte - b'0', NonZeroUsize::one()))
        } else {
            Err(DecodeFailure::Invalid { source: NotADigit(byte), consumed: Some(NonZeroUsize::one()) })
        }
    }

    fn decode_eof(
        &mut self,
        input: &[u8],
        input_index: usize,
    ) -> Result<(u8, NonZeroUsize), DecodeFailure<NotADigit>> {
        self.decode(input, input_index)
    }

    fn spec_decode(&self, input: &[u8], input_index: usize) -> Result<(u8, NonZeroUsize), DecodeFailure<NotADigit>> {
        let byte = input[input_index];
        if byte.is_ascii_digit() {
            Ok((byte - b'0', NonZeroUsize::one()))
        } else {
            Err(DecodeFailure::Invalid { source: NotADigit(byte), consumed: Some(NonZeroUsize::one()) })
        }
    }

    fn spec_decode_eof(&self, input: &[u8], input_index: usize) -> Result<(u8, NonZeroUsize), DecodeFailure<NotADigit>> {
        self.spec_decode(input, input_index)
    }

    fn spec_encode(&self, value: u8) -> Result<Vec<u8>, NotADigit> {
        Ok(vec![b'0' + value])
    }

    fn spec_encode_len(&self, _value: u8) -> usize {
        1
    }

    fn spec_can_encode(&self, value: u8) -> bool {
        value <= 9
    }

    fn can_encode_value(&self, value: &u8) -> bool {
        *value <= 9
    }

    fn encode_len(&self, _value: &u8) -> usize {
        1
    }

    fn encode(&mut self, value: &u8, output: &mut [u8], output_index: usize) -> Result<usize, NotADigit> {
        output[output_index] = b'0' + *value;
        Ok(1)
    }

    fn spec_after_encode(&self, _value: u8) -> Self {
        DigitCodec
    }

    fn spec_encode_reset(&self) -> Result<Vec<u8>, NotADigit> {
        Ok(vec![])
    }

    fn spec_after_encode_reset(&self) -> Self {
        DigitCodec
    }

    fn spec_encode_finish(&self) -> Result<Vec<u8>, NotADigit> {
        Ok(vec![])
    }

    fn spec_after_encode_finish(&self) -> Self {
        DigitCodec
    }

    fn spec_after_decode(&self, _input: &[u8], _input_index: usize) -> Self {
        DigitCodec
    }

    fn spec_after_decode_eof(&self, _input: &[u8], _input_index: usize) -> Self {
        DigitCodec
    }

    fn spec_decode_reset(&self) -> Result<Vec<u8>, NotADigit> {
        Ok(vec![])
    }

    fn spec_after_decode_reset(&self) -> Self {
        DigitCodec
    }

    fn spec_decode_finish(&self) -> Result<Vec<u8>, NotADigit> {
        Ok(vec![])
    }

    fn spec_after_decode_finish(&self) -> Self {
        DigitCodec
    }

    fn encode_reset(&mut self, _output: &mut [u8], _output_index: usize) -> Result<usize, NotADigit> {
        Ok(0)
    }

    fn encode_finish(&mut self, _output: &mut [u8], _output_index: usize) -> Result<usize, NotADigit> {
        Ok(0)
    }

    fn decode_reset(&mut self, _output: &mut [u8], _output_index: usize) -> Result<usize, NotADigit> {
        Ok(0)
    }

    fn decode_finish(&mut self, _output: &mut [u8], _output_index: usize) -> Result<usize, NotADigit> {
        Ok(0)
    }
}

/// A codec that frames each value with a one-unit header on reset and a
/// one-unit trailer on finish.
#[derive(Debug, Default)]
struct FramedCodec;

impl Codec for FramedCodec {
    type Value = u8;
    type Unit = u8;
    type DecodeError = Never;
    type EncodeError = Never;

    const MIN_UNITS_PER_VALUE: usize = 1;
    const MAX_ENCODE_UNITS_PER_VALUE: usize = 1;
    const MAX_DECODE_UNITS_PER_VALUE: usize = 1;
    const MAX_ENCODE_RESET_UNITS: usize = 1;
    const MAX_ENCODE_FINISH_UNITS: usize = 1;

    fn decode(
        &mut self,
        input: &[u8],
        input_index: usize,
    ) -> Result<(u8, NonZeroUsize), DecodeFailure<Never>> {
        Ok((input[input_index], NonZeroUsize::one()))
    }

    fn encode_reset(&mut self, output: &mut [u8], output_index: usize) -> Result<usize, Never> {
        output[output_index] = b'<';
        Ok(1)
    }

    fn decode_eof(
        &mut self,
        input: &[u8],
        input_index: usize,
    ) -> Result<(u8, NonZeroUsize), DecodeFailure<Never>> {
        self.decode(input, input_index)
    }

    fn spec_decode(&self, input: &[u8], input_index: usize) -> Result<(u8, NonZeroUsize), DecodeFailure<Never>> {
        Ok((input[input_index], NonZeroUsize::one()))
    }

    fn spec_decode_eof(&self, input: &[u8], input_index: usize) -> Result<(u8, NonZeroUsize), DecodeFailure<Never>> {
        self.spec_decode(input, input_index)
    }

    fn spec_encode(&self, value: u8) -> Result<Vec<u8>, Never> {
        Ok(vec![value])
    }

    fn spec_encode_len(&self, _value: u8) -> usize {
        1
    }

    fn spec_can_encode(&self, _value: u8) -> bool {
        true
    }

    fn can_encode_value(&self, _value: &u8) -> bool {
        true
    }

    fn encode_len(&self, _value: &u8) -> usize {
        1
    }

    fn encode(&mut self, value: &u8, output: &mut [u8], output_index: usize) -> Result<usize, Never> {
        output[output_index] = *value;
        Ok(1)
    }

    fn encode_finish(&mut self, output: &mut [u8], output_index: usize) -> Result<usize, Never> {
        output[output_index] = b'>';
        Ok(1)
    }

    fn spec_after_encode(&self, _value: u8) -> Self {
        FramedCodec
    }

    fn spec_encode_reset(&self) -> Result<Vec<u8>, Never> {
        Ok(vec![b'<'])
    }

    fn spec_after_encode_reset(&self) -> Self {
        FramedCodec
    }

    fn spec_encode_finish(&self) -> Result<Vec<u8>, Never> {
        Ok(vec![b'>'])
    }

    fn spec_after_encode_finish(&self) -> Self {
        FramedCodec
    }

    fn spec_after_decode(&self, _input: &[u8], _input_index: usize) -> Self {
        FramedCodec
    }

    fn spec_after_decode_eof(&self, _input: &[u8], _input_index: usize) -> Self {
        FramedCodec
    }

    fn spec_decode_reset(&self) -> Result<Vec<u8>, Never> {
        Ok(vec![])
    }

    fn spec_after_decode_reset(&self) -> Self {
        FramedCodec
    }

    fn spec_decode_finish(&self) -> Result<Vec<u8>, Never> {
        Ok(vec![])
    }

    fn spec_after_decode_finish(&self) -> Self {
        FramedCodec
    }

    fn decode_reset(&mut self, _output: &mut [u8], _output_index: usize) -> Result<usize, Never> {
        Ok(0)
    }

    fn decode_finish(&mut self, _output: &mut [u8], _output_index: usize) -> Result<usize, Never> {
        Ok(0)
    }
}

/// A codec whose decode finish hook emits one extra value.
#[derive(Debug, Default)]
struct TrailerDecodeCodec;

impl Codec for TrailerDecodeCodec {
    type Value = u8;
    type Unit = u8;
    type DecodeError = Never;
    type EncodeError = Never;

    const MIN_UNITS_PER_VALUE: usize = 1;
    const MAX_ENCODE_UNITS_PER_VALUE: usize = 1;
    const MAX_DECODE_UNITS_PER_VALUE: usize = 1;
    const MAX_DECODE_FINISH_VALUES: usize = 1;

    fn decode(
        &mut self,
        input: &[u8],
        input_index: usize,
    ) -> Result<(u8, NonZeroUsize), DecodeFailure<Never>> {
        Ok((input[input_index], NonZeroUsize::one()))
    }

    fn decode_finish(&mut self, output: &mut [u8], output_index: usize) -> Result<usize, Never> {
        output[output_index] = 0xff;
        Ok(1)
    }

    fn decode_eof(
        &mut self,
        input: &[u8],
        input_index: usize,
    ) -> Result<(u8, NonZeroUsize), DecodeFailure<Never>> {
        self.decode(input, input_index)
    }

    fn spec_decode(&self, input: &[u8], input_index: usize) -> Result<(u8, NonZeroUsize), DecodeFailure<Never>> {
        Ok((input[input_index], NonZeroUsize::one()))
    }

    fn spec_decode_eof(&self, input: &[u8], input_index: usize) -> Result<(u8, NonZeroUsize), DecodeFailure<Never>> {
        self.spec_decode(input, input_index)
    }

    fn spec_encode(&self, value: u8) -> Result<Vec<u8>, Never> {
        Ok(vec![value])
    }

    fn spec_encode_len(&self, _value: u8) -> usize {
        1
    }

    fn spec_can_encode(&self, _value: u8) -> bool {
        true
    }

    fn can_encode_value(&self, _value: &u8) -> bool {
        true
    }

    fn encode_len(&self, _value: &u8) -> usize {
        1
    }

    fn encode(&mut self, value: &u8, output: &mut [u8], output_index: usize) -> Result<usize, Never> {
        output[output_index] = *value;
        Ok(1)
    }

    fn spec_after_encode(&self, _value: u8) -> Self {
        TrailerDecodeCodec
    }

    fn spec_encode_reset(&self) -> Result<Vec<u8>, Never> {
        Ok(vec![])
    }

    fn spec_after_encode_reset(&self) -> Self {
        TrailerDecodeCodec
    }

    fn spec_encode_finish(&self) -> Result<Vec<u8>, Never> {
        Ok(vec![])
    }

    fn spec_after_encode_finish(&self) -> Self {
        TrailerDecodeCodec
    }

    fn spec_after_decode(&self, _input: &[u8], _input_index: usize) -> Self {
        TrailerDecodeCodec
    }

    fn spec_after_decode_eof(&self, _input: &[u8], _input_index: usize) -> Self {
        TrailerDecodeCodec
    }

    fn spec_decode_reset(&self) -> Result<Vec<u8>, Never> {
        Ok(vec![])
    }

    fn spec_after_decode_reset(&self) -> Self {
        TrailerDecodeCodec
    }

    fn spec_decode_finish(&self) -> Result<Vec<u8>, Never> {
        Ok(vec![0xff])
    }

    fn spec_after_decode_finish(&self) -> Self {
        TrailerDecodeCodec
    }

    fn encode_reset(&mut self, _output: &mut [u8], _output_index: usize) -> Result<usize, Never> {
        Ok(0)
    }

    fn encode_finish(&mut self, _output: &mut [u8], _output_index: usize) -> Result<usize, Never> {
        Ok(0)
    }

    fn decode_reset(&mut self, _output: &mut [u8], _output_index: usize) -> Result<usize, Never> {
        Ok(0)
    }
}

#[test]
fn u16_be_codec_encodes_owned_bytes() {
    let mut encoder = CodecValueEncoder::new(U16BeCodec);
    let bytes = encoder.encode(&0x1234).expect("encoding is infallible");
    assert_eq!(vec![0x12, 0x34], bytes);
}

#[test]
fn u16_be_codec_decodes_owned_value() {
    let mut decoder = CodecValueDecoder::new(U16BeCodec);
    assert_eq!(Ok(0x1234), decoder.decode(&[0x12, 0x34]));
}

#[test]
fn value_round_trip_through_adapters() {
    let mut encoder = CodecValueEncoder::new(U16BeCodec);
    let mut decoder = CodecValueDecoder::new(U16BeCodec);
    for value in [0u16, 1, 0x00ff, 0xff00, 0xabcd, u16::MAX] {
        let bytes = ValueEncoder::encode(&mut encoder, &value).unwrap();
        assert_eq!(Ok(value), ValueDecoder::decode(&mut decoder, bytes.as_slice()));
    }
}

#[test]
fn encode_into_appends_after_existing_units() {
    let mut encoder = CodecValueEncoder::new(U16BeCodec);
    let mut output = vec![0xaa];
    assert_eq!(Ok(2), encoder.encode_into(&0x0102, &mut output));
    assert_eq!(vec![0xaa, 0x01, 0x02], output);
}

#[test]
fn encode_into_keeps_output_on_unencodable_value() {
    let mut encoder = CodecValueEncoder::new(DigitCodec);
    let mut output = vec![b'7'];
    let result = encoder.encode_into(&12, &mut output);
    assert!(matches!(
        result,
        Err(TranscodeEncodeError::Unencodable { input_index: 0, value: None })
    ));
    assert_eq!(vec![b'7'], output);
}

#[test]
fn encode_runs_reset_and_finish_hooks() {
    let mut encoder = CodecValueEncoder::new(FramedCodec);
    assert_eq!(Ok(vec![b'<', b'x', b'>']), encoder.encode(&b'x'));
}

#[test]
fn max_complete_encode_units_sums_lifecycle_bounds() {
    assert_eq!(Ok(2), max_complete_encode_units::<U16BeCodec>());
    assert_eq!(Ok(3), max_complete_encode_units::<FramedCodec>());
}

#[test]
fn decode_rejects_short_input_as_incomplete() {
    let mut decoder = CodecValueDecoder::new(U16BeCodec);
    let result = decoder.decode(&[0x12]);
    assert!(matches!(
        result,
        Err(TranscodeDecodeError::Failure(TranscodeFailure::IncompleteInput { .. }))
    ));
}

#[test]
fn decode_rejects_trailing_input() {
    let mut decoder = CodecValueDecoder::new(U16BeCodec);
    let result = decoder.decode(&[0x12, 0x34, 0x56]);
    assert!(matches!(
        result,
        Err(TranscodeDecodeError::Failure(TranscodeFailure::TrailingInput { consumed: 2, remaining: 1 }))
    ));
}

#[test]
fn decode_reports_domain_error_at_index_zero() {
    let mut decoder = CodecValueDecoder::new(DigitCodec);
    let result = decoder.decode(b"x");
    let error = result.unwrap_err();
    assert!(error.is_domain());
    assert_eq!(Some(&NotADigit(b'x')), error.domain_ref());
    assert_eq!(Ok(7), decoder.decode(b"7"));
}

#[test]
fn decode_refuses_codec_with_lifecycle_output() {
    let mut decoder = CodecValueDecoder::new(TrailerDecodeCodec);
    let result = decoder.decode(&[5]);
    assert!(matches!(
        result,
        Err(TranscodeDecodeError::Failure(TranscodeFailure::UnsupportedDecodeLifecycleOutput {
            reset_bound: 0,
            finish_bound: 1
        }))
    ));
}

#[test]
fn decode_lifecycle_keeps_finish_values() {
    let mut decoder = CodecValueDecoder::new(TrailerDecodeCodec);
    let output = decoder.decode_lifecycle(&[5]).unwrap();
    assert_eq!(&[] as &[u8], output.reset());
    assert_eq!(&5, output.value());
    assert_eq!(&[0xff], output.finish());
    let (reset, value, finish) = output.into_parts();
    assert!(reset.is_empty());
    assert_eq!(5, value);
    assert_eq!(vec![0xff], finish);
}

#[test]
fn decode_lifecycle_with_scratch_rejects_short_finish_buffer() {
    let mut decoder = CodecValueDecoder::new(TrailerDecodeCodec);
    let mut reset: [u8; 0] = [];
    let mut finish: [u8; 0] = [];
    let result = decoder.decode_lifecycle_with_scratch(&[5], &mut reset, &mut finish);
    assert!(matches!(
        result,
        Err(TranscodeDecodeError::Failure(TranscodeFailure::InsufficientOutput {
            output_index: 0,
            required: 1,
            available: 0
        }))
    ));
}

#[test]
fn decode_lifecycle_with_scratch_reports_written_counts() {
    let mut decoder = CodecValueDecoder::new(TrailerDecodeCodec);
    let mut reset: [u8; 0] = [];
    let mut finish = [0u8; 2];
    let progress = decoder.decode_lifecycle_with_scratch(&[9], &mut reset, &mut finish).unwrap();
    assert_eq!(&9, progress.value());
    assert_eq!(0, progress.reset_written());
    assert_eq!(1, progress.finish_written());
    assert_eq!([0xff, 0], finish);
}

#[test]
fn max_encode_value_units_is_checked_sum() {
    assert_eq!(Ok(3), FramedCodec.max_encode_value_units());
    assert_eq!(Ok(2), U16BeCodec.max_encode_value_units());
}

#[test]
fn encode_value_with_reset_writes_full_lifecycle() {
    let mut codec = FramedCodec;
    let mut output = [0u8; 5];
    assert_eq!(Ok(3), codec.encode_value_with_reset(&b'v', &mut output, 1));
    assert_eq!([0, b'<', b'v', b'>', 0], output);
}

#[test]
fn encode_value_with_reset_reports_insufficient_output() {
    let mut codec = FramedCodec;
    let mut output = [0u8; 2];
    let result = codec.encode_value_with_reset(&b'v', &mut output, 0);
    assert!(matches!(
        result,
        Err(TranscodeError::Failure(TranscodeFailure::InsufficientOutput { output_index: 0, required: 3, available: 2 }))
    ));
}

#[test]
fn encode_value_with_reset_reports_unencodable() {
    let mut codec = DigitCodec;
    let mut output = [0u8; 1];
    let result = codec.encode_value_with_reset(&10, &mut output, 0);
    assert!(matches!(result, Err(TranscodeError::Failure(TranscodeFailure::UnencodableValue { input_index: 0, value: Some(10) }))));
}

#[test]
fn decode_value_with_finish_returns_value_and_consumed() {
    let mut codec = U16BeCodec;
    let mut finish: [u16; 0] = [];
    let (value, consumed, written) = codec.decode_value_with_finish(&[0, 0x01, 0x02], 1, &mut finish, 0).unwrap();
    assert_eq!(0x0102, value);
    assert_eq!(2, consumed.get());
    assert_eq!(0, written);
}

#[test]
fn decode_exact_value_with_finish_rejects_trailing_units() {
    let mut codec = DigitCodec;
    let mut finish: [u8; 0] = [];
    let result = codec.decode_exact_value_with_finish(b"12", &mut finish, 0);
    assert!(matches!(
        result,
        Err(TranscodeError::Failure(TranscodeFailure::TrailingInput { consumed: 1, remaining: 1 }))
    ));
    assert_eq!(Ok((4, 0)), codec.decode_exact_value_with_finish(b"4", &mut finish, 0));
}

#[test]
fn exact_decode_outcome_decides_on_the_codec_answer() {
    let whole: Result<(u8, NonZeroUsize), DecodeFailure<Never>> = Ok((4, NonZeroUsize::new(2).unwrap()));
    assert_eq!(Ok(4), exact_decode_outcome(whole, 2));
    let short: Result<(u8, NonZeroUsize), DecodeFailure<Never>> = Ok((4, NonZeroUsize::new(2).unwrap()));
    assert_eq!(
        Err(TranscodeDecodeError::Failure(TranscodeFailure::TrailingInput { consumed: 2, remaining: 3 })),
        exact_decode_outcome(short, 5)
    );
    let incomplete: Result<(u8, NonZeroUsize), DecodeFailure<Never>> =
        Err(DecodeFailure::Incomplete { required_total: NonZeroUsize::new(4).unwrap() });
    assert_eq!(
        Err(TranscodeDecodeError::Failure(TranscodeFailure::IncompleteInput {
            input_index: 0,
            required: 4,
            available: 3
        })),
        exact_decode_outcome(incomplete, 3)
    );
    let invalid: Result<(u8, NonZeroUsize), DecodeFailure<NotADigit>> =
        Err(DecodeFailure::Invalid { source: NotADigit(b'x'), consumed: None });
    let error = exact_decode_outcome(invalid, 1).unwrap_err();
    assert!(error.is_domain());
    assert_eq!(Some(&NotADigit(b'x')), error.domain_ref());
}

#[test]
fn decode_lifecycle_with_scratch_leaves_buffers_on_short_finish() {
    let mut decoder = CodecValueDecoder::new(TrailerDecodeCodec);
    let mut reset = [9u8; 1];
    let mut finish: [u8; 0] = [];
    assert!(decoder.decode_lifecycle_with_scratch(&[5], &mut reset, &mut finish).is_err());
    assert_eq!([9], reset);
}

#[test]
fn decode_value_with_finish_leaves_output_on_short_finish_buffer() {
    let mut codec = TrailerDecodeCodec;
    let mut finish = [3u8; 1];
    let result = codec.decode_value_with_finish(&[5], 0, &mut finish, 1);
    assert!(matches!(
        result,
        Err(TranscodeError::Failure(TranscodeFailure::InsufficientOutput { output_index: 1, required: 1, available: 0 }))
    ));
    assert_eq!([3], finish);
}

#[test]
fn encode_value_with_reset_leaves_output_on_preflight_failure() {
    let mut codec = FramedCodec;
    let mut output = [1u8, 2];
    assert!(codec.encode_value_with_reset(&b'v', &mut output, 0).is_err());
    assert_eq!([1, 2], output);
}
