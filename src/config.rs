//! The configuration builder and the encoding of the configuration record.
use vstd::prelude::*;

use crate::wire::{
    bool_field, int32_field, put_bool_field, put_int32_field, put_string_field, string_field,
};

verus! {

/// What kind of recognition the engine runs; it decides which models are used.
#[derive(Clone, Copy, Debug, PartialEq, Eq, Structural, Hash)]
pub enum RecognitionMode {
    Unknown,
    /// Voice input for a keyboard.
    Ime,
    /// Captions for a stream of audio.
    Caption,
}

impl RecognitionMode {
    /// The number that stands for the mode in the encoded record.
    pub open spec fn wire_number(self) -> int {
        match self {
            RecognitionMode::Unknown => 0,
            RecognitionMode::Ime => 1,
            RecognitionMode::Caption => 2,
        }
    }

    pub fn number(&self) -> (r: i32)
        ensures
            r as int == self.wire_number(),
    {
        match self {
            RecognitionMode::Unknown => 0,
            RecognitionMode::Ime => 1,
            RecognitionMode::Caption => 2,
        }
    }
}

/// Field numbers of the configuration record.
pub const TAG_CHANNEL_COUNT: u32 = 1;
pub const TAG_SAMPLE_RATE: u32 = 2;
pub const TAG_MAX_BUFFER_BYTES: u32 = 4;
pub const TAG_SIMULATE_REALTIME: u32 = 5;
pub const TAG_API_KEY: u32 = 6;
pub const TAG_LANGUAGE_PACK_DIRECTORY: u32 = 7;
pub const TAG_RECOGNITION_MODE: u32 = 8;
pub const TAG_RESET_ON_FINAL_RESULT: u32 = 9;
pub const TAG_INCLUDE_TIMING_METRICS: u32 = 10;
pub const TAG_ENABLE_LANG_ID: u32 = 11;

/// The recognition parameters that a builder holds.
pub struct ConfigModel {
    pub channel_count: u32,
    pub sample_rate: u32,
    pub max_buffer_bytes: u32,
    pub simulate_realtime_testonly: bool,
    pub language_pack_directory: Seq<char>,
    pub api_key: Seq<char>,
    pub recognition_mode: RecognitionMode,
    pub reset_on_final_result: bool,
    pub include_timing_metrics: bool,
    pub enable_lang_id: bool,
}

/// The parameters of a builder on which no setter was called.
pub open spec fn default_config() -> ConfigModel {
    ConfigModel {
        channel_count: 1,
        sample_rate: 16000,
        max_buffer_bytes: 0,
        simulate_realtime_testonly: false,
        language_pack_directory: "./SODAModels"@,
        api_key: "dummy_key"@,
        recognition_mode: RecognitionMode::Ime,
        reset_on_final_result: true,
        include_timing_metrics: true,
        enable_lang_id: false,
    }
}

/// An unsigned parameter as the record's signed 32-bit field holds it.
pub open spec fn as_int32(v: u32) -> int {
    if v < 0x8000_0000 {
        v as int
    } else {
        v as int - 0x1_0000_0000
    }
}

/// The encoded configuration record: every field present, in field-number order.
pub open spec fn config_bytes(c: ConfigModel) -> Seq<u8> {
    int32_field(TAG_CHANNEL_COUNT as nat, as_int32(c.channel_count))
        + int32_field(TAG_SAMPLE_RATE as nat, as_int32(c.sample_rate))
        + int32_field(TAG_MAX_BUFFER_BYTES as nat, as_int32(c.max_buffer_bytes))
        + bool_field(TAG_SIMULATE_REALTIME as nat, c.simulate_realtime_testonly)
        + string_field(TAG_API_KEY as nat, c.api_key)
        + string_field(TAG_LANGUAGE_PACK_DIRECTORY as nat, c.language_pack_directory)
        + int32_field(TAG_RECOGNITION_MODE as nat, c.recognition_mode.wire_number())
        + bool_field(TAG_RESET_ON_FINAL_RESULT as nat, c.reset_on_final_result)
        + bool_field(TAG_INCLUDE_TIMING_METRICS as nat, c.include_timing_metrics)
        + bool_field(TAG_ENABLE_LANG_ID as nat, c.enable_lang_id)
}

fn to_int32(v: u32) -> (r: i32)
    ensures
        r as int == as_int32(v),
{
    if v < 0x8000_0000 {
        v as i32
    } else {
        let w: i64 = v as i64 - 0x1_0000_0000;
        w as i32
    }
}

/// Accumulates recognition parameters for new clients.
pub struct SodaBuilder {
    channel_count: u32,
    sample_rate: u32,
    max_buffer_bytes: u32,
    simulate_realtime_test_only: bool,
    language_pack_directory: String,
    api_key: String,
    recognition_mode: RecognitionMode,
    reset_on_final_result: bool,
    include_timing_metrics: bool,
    enable_lang_id: bool,
}

impl View for SodaBuilder {
    type V = ConfigModel;

    closed spec fn view(&self) -> ConfigModel {
        ConfigModel {
            channel_count: self.channel_count,
            sample_rate: self.sample_rate,
            max_buffer_bytes: self.max_buffer_bytes,
            simulate_realtime_testonly: self.simulate_realtime_test_only,
            language_pack_directory: self.language_pack_directory@,
            api_key: self.api_key@,
            recognition_mode: self.recognition_mode,
            reset_on_final_result: self.reset_on_final_result,
            include_timing_metrics: self.include_timing_metrics,
            enable_lang_id: self.enable_lang_id,
        }
    }
}

impl Default for SodaBuilder {
    fn default() -> (r: SodaBuilder)
        ensures
            r@ == default_config(),
    {
        SodaBuilder {
            channel_count: 1,
            sample_rate: 16000,
            language_pack_directory: "./SODAModels".to_string(),
            max_buffer_bytes: 0,
            simulate_realtime_test_only: false,
            api_key: "dummy_key".to_string(),
            recognition_mode: RecognitionMode::Ime,
            reset_on_final_result: true,
            include_timing_metrics: true,
            enable_lang_id: false,
        }
    }
}

impl SodaBuilder {
    /// A builder that holds the default parameters.
    pub fn new() -> (r: SodaBuilder)
        ensures
            r@ == default_config(),
    {
        SodaBuilder::default()
    }

    /// Number of channels in the raw audio that will be provided.
    pub fn channel_count(&mut self, channel_count: u32) -> (r: &mut SodaBuilder)
        ensures
            r@ == (ConfigModel { channel_count, ..old(self)@ }),
            final(self)@ == final(r)@,
    {
        self.channel_count = channel_count;
        self
    }

    /// Sample rate of the raw audio, in Hz.
    pub fn sample_rate(&mut self, sample_rate: u32) -> (r: &mut SodaBuilder)
        ensures
            r@ == (ConfigModel { sample_rate, ..old(self)@ }),
            final(self)@ == final(r)@,
    {
        self.sample_rate = sample_rate;
        self
    }

    /// Largest buffer that the engine's audio pipe may use; 0, the default, means
    /// unlimited.
    pub fn max_buffer_bytes(&mut self, max_buffer_bytes: u32) -> (r: &mut SodaBuilder)
        ensures
            r@ == (ConfigModel { max_buffer_bytes, ..old(self)@ }),
            final(self)@ == final(r)@,
    {
        self.max_buffer_bytes = max_buffer_bytes;
        self
    }

    /// Whether the engine slows the audio it is given down to real time. Meant
    /// for tests only: endpointing is more accurate, but production use suffers.
    pub fn simulate_realtime_testonly(&mut self, simulate_realtime_testonly: bool) -> (r: &mut SodaBuilder)
        ensures
            r@ == (ConfigModel { simulate_realtime_testonly, ..old(self)@ }),
            final(self)@ == final(r)@,
    {
        self.simulate_realtime_test_only = simulate_realtime_testonly;
        self
    }

    /// Directory of the language pack to use.
    pub fn language_pack_directory(&mut self, language_pack_directory: String) -> (r: &mut SodaBuilder)
        ensures
            r@ == (ConfigModel { language_pack_directory: language_pack_directory@, ..old(self)@ }),
            final(self)@ == final(r)@,
    {
        self.language_pack_directory = language_pack_directory;
        self
    }

    /// API key used for call verification.
    pub fn api_key(&mut self, api_key: String) -> (r: &mut SodaBuilder)
        ensures
            r@ == (ConfigModel { api_key: api_key@, ..old(self)@ }),
            final(self)@ == final(r)@,
    {
        self.api_key = api_key;
        self
    }

    /// What kind of recognition to run; it decides which models are used.
    pub fn recognition_mode(&mut self, recognition_mode: RecognitionMode) -> (r: &mut SodaBuilder)
        ensures
            r@ == (ConfigModel { recognition_mode, ..old(self)@ }),
            final(self)@ == final(r)@,
    {
        self.recognition_mode = recognition_mode;
        self
    }

    /// Whether the engine starts a new session after every final result.
    pub fn reset_on_final_result(&mut self, reset_on_final_result: bool) -> (r: &mut SodaBuilder)
        ensures
            r@ == (ConfigModel { reset_on_final_result, ..old(self)@ }),
            final(self)@ == final(r)@,
    {
        self.reset_on_final_result = reset_on_final_result;
        self
    }

    /// Whether recognition and endpoint events carry timing metrics.
    pub fn include_timing_metrics(&mut self, include_timing_metrics: bool) -> (r: &mut SodaBuilder)
        ensures
            r@ == (ConfigModel { include_timing_metrics, ..old(self)@ }),
            final(self)@ == final(r)@,
    {
        self.include_timing_metrics = include_timing_metrics;
        self
    }

    /// Whether the engine sends language identification events.
    pub fn enable_lang_id(&mut self, enable_lang_id: bool) -> (r: &mut SodaBuilder)
        ensures
            r@ == (ConfigModel { enable_lang_id, ..old(self)@ }),
            final(self)@ == final(r)@,
    {
        self.enable_lang_id = enable_lang_id;
        self
    }

    /// Encodes the current parameters as the configuration record that the
    /// engine is created with.
    pub fn encode_config(&self) -> (r: Vec<u8>)
        ensures
            r@ == config_bytes(self@),
    {
        let mut buf: Vec<u8> = Vec::new();
        put_int32_field(TAG_CHANNEL_COUNT, to_int32(self.channel_count), &mut buf);
        put_int32_field(TAG_SAMPLE_RATE, to_int32(self.sample_rate), &mut buf);
        put_int32_field(TAG_MAX_BUFFER_BYTES, to_int32(self.max_buffer_bytes), &mut buf);
        put_bool_field(TAG_SIMULATE_REALTIME, self.simulate_realtime_test_only, &mut buf);
        put_string_field(TAG_API_KEY, &self.api_key, &mut buf);
        put_string_field(TAG_LANGUAGE_PACK_DIRECTORY, &self.language_pack_directory, &mut buf);
        put_int32_field(TAG_RECOGNITION_MODE, self.recognition_mode.number(), &mut buf);
        put_bool_field(TAG_RESET_ON_FINAL_RESULT, self.reset_on_final_result, &mut buf);
        put_bool_field(TAG_INCLUDE_TIMING_METRICS, self.include_timing_metrics, &mut buf);
        put_bool_field(TAG_ENABLE_LANG_ID, self.enable_lang_id, &mut buf);
        assert(buf@ =~= config_bytes(self@));
        buf
    }
}

} // verus!
