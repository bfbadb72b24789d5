//! Decoders for the bit-flag fields and fixed-size byte buffers of a raw scan
//! record. Nothing here performs I/O.

use crate::network::{text_view, EncryptionClass, WirelessMode};
use crate::wire::{IwParam, IwQuality, IwStats, ESSID_BUFFER_SIZE};
use libc::c_int;
use vstd::prelude::*;
use vstd::slice::slice_subrange;
use vstd::utf8::{
    decode_first_scalar, decode_utf8, length_of_first_scalar, pop_first_scalar, valid_first_scalar,
    valid_utf8,
};

verus! {

/// Bit of the key flags that says encryption is switched off.
pub const IW_AUTH_WPA_VERSION_DISABLED: c_int = 0x0000_0001;

/// Bit of the key flags that announces WPA.
pub const IW_AUTH_WPA_VERSION_WPA: c_int = 0x0000_0002;

/// Bit of the key flags that announces WPA2.
pub const IW_AUTH_WPA_VERSION_WPA2: c_int = 0x0000_0004;

/// Whether `flags` has any bit of `mask` set.
pub open spec fn has_flag(flags: c_int, mask: c_int) -> bool {
    flags & mask != 0
}

/// The encryption class that a key-flags value stands for. The bits are
/// independent and may occur together; the order of the tests below decides
/// between them: disabled first, then WPA, then WPA2.
pub open spec fn encryption_of(flags: c_int) -> EncryptionClass {
    if has_flag(flags, IW_AUTH_WPA_VERSION_DISABLED) {
        EncryptionClass::Open
    } else if has_flag(flags, IW_AUTH_WPA_VERSION_WPA) {
        EncryptionClass::WPA
    } else if has_flag(flags, IW_AUTH_WPA_VERSION_WPA2) {
        EncryptionClass::WPA2
    } else {
        EncryptionClass::Unknown
    }
}

/// Classifies the key flags of a raw record.
pub fn decode_encryption(flags: c_int) -> (class: EncryptionClass)
    ensures
        class == encryption_of(flags),
{
    if flags & IW_AUTH_WPA_VERSION_DISABLED != 0 {
        EncryptionClass::Open
    } else if flags & IW_AUTH_WPA_VERSION_WPA != 0 {
        EncryptionClass::WPA
    } else if flags & IW_AUTH_WPA_VERSION_WPA2 != 0 {
        EncryptionClass::WPA2
    } else {
        EncryptionClass::Unknown
    }
}

/// Position of the first zero byte of `bytes` at or after `start`, or the
/// length of `bytes` where there is none.
pub open spec fn nul_position_from(bytes: Seq<u8>, start: int) -> int
    decreases bytes.len() - start,
{
    if 0 <= start < bytes.len() && bytes[start] != 0 {
        nul_position_from(bytes, start + 1)
    } else {
        start
    }
}

/// Number of bytes of text in a zero-terminated buffer: everything before
/// the first zero byte, or the whole buffer where it holds none.
pub open spec fn text_len(bytes: Seq<u8>) -> int {
    nul_position_from(bytes, 0)
}

/// The bytes of text in a zero-terminated buffer.
pub open spec fn text_bytes(bytes: Seq<u8>) -> Seq<u8> {
    bytes.subrange(0, text_len(bytes))
}

/// The text that `String::from_utf8_lossy` makes of `bytes`: the text they
/// encode in UTF-8, with U+FFFD in place of every part that is not valid.
pub uninterp spec fn lossy_utf8(bytes: Seq<u8>) -> Seq<char>;

/// Calls `String::from_utf8_lossy` and takes the text it returns as an owned
/// string. The text depends on the bytes alone; where they are valid UTF-8
/// it is the text they encode, unchanged.
#[verifier::external_body]
fn lossy_text(bytes: &[u8]) -> (text: String)
    ensures
        text@ == lossy_utf8(bytes@),
        valid_utf8(bytes@) ==> text@ == decode_utf8(bytes@),
{
    String::from_utf8_lossy(bytes).into_owned()
}

/// Counts the bytes of text in a zero-terminated buffer. Looks at no byte
/// past the end of `bytes`, whether or not a zero byte is found.
pub fn text_length(bytes: &[u8]) -> (n: usize)
    ensures
        n == text_len(bytes@),
        n <= bytes@.len(),
{
    let mut i: usize = 0;
    while i < bytes.len() && bytes[i] != 0
        invariant
            i <= bytes@.len(),
            text_len(bytes@) == nul_position_from(bytes@, i as int),
        decreases bytes@.len() - i,
    {
        i += 1;
    }
    i
}

/// The text that a run of bytes stands for: the text they encode where they
/// are valid UTF-8, and what lossy decoding makes of them where they are not.
pub open spec fn utf8_text(bytes: Seq<u8>) -> Seq<char> {
    if valid_utf8(bytes) {
        decode_utf8(bytes)
    } else {
        lossy_utf8(bytes)
    }
}

/// The name that an ESSID buffer carries, if the record has one.
pub open spec fn essid_of(buffer: Seq<u8>, has_essid: bool) -> Option<Seq<char>> {
    if has_essid {
        Option::Some(utf8_text(text_bytes(buffer)))
    } else {
        Option::None
    }
}

/// Decodes the ESSID buffer of a configuration block. Without the presence
/// flag there is no name, whatever the buffer holds. With it, the name is
/// the text before the first zero byte, or all of the buffer where no byte
/// is zero; bytes that are not valid UTF-8 are replaced, never refused.
pub fn decode_essid(buffer: &[u8; ESSID_BUFFER_SIZE], has_essid: bool) -> (essid: Option<String>)
    ensures
        text_view(essid) == essid_of(buffer@, has_essid),
{
    if !has_essid {
        return None;
    }
    let bytes = buffer.as_slice();
    let n = text_length(bytes);
    let run = slice_subrange(bytes, 0, n);
    Some(lossy_text(run))
}

/// The text of a zero-terminated buffer is marked off by the first zero
/// byte and by nothing else: it lies within the buffer, holds no zero byte,
/// and ends either at a zero byte or at the end of the buffer.
pub proof fn lemma_text_len_is_first_nul(bytes: Seq<u8>)
    ensures
        0 <= text_len(bytes) <= bytes.len(),
        forall|i: int| 0 <= i < text_len(bytes) ==> bytes[i] != 0,
        text_len(bytes) < bytes.len() ==> bytes[text_len(bytes)] == 0,
{
    lemma_nul_position_from(bytes, 0);
}

proof fn lemma_nul_position_from(bytes: Seq<u8>, start: int)
    requires
        0 <= start <= bytes.len(),
    ensures
        start <= nul_position_from(bytes, start) <= bytes.len(),
        forall|i: int| start <= i < nul_position_from(bytes, start) ==> bytes[i] != 0,
        nul_position_from(bytes, start) < bytes.len() ==> bytes[nul_position_from(bytes, start)]
            == 0,
    decreases bytes.len() - start,
{
    if start < bytes.len() && bytes[start] != 0 {
        lemma_nul_position_from(bytes, start + 1);
    }
}

/// Any position that marks off the text as the first zero byte does is the
/// length of the text.
pub proof fn lemma_text_len_unique(bytes: Seq<u8>, n: int)
    requires
        0 <= n <= bytes.len(),
        forall|i: int| 0 <= i < n ==> bytes[i] != 0,
        n < bytes.len() ==> bytes[n] == 0,
    ensures
        text_len(bytes) == n,
{
    lemma_text_len_is_first_nul(bytes);
    let m = text_len(bytes);
    if m < n {
        assert(bytes[m] == 0);
    } else if n < m {
        assert(bytes[n] != 0);
    }
}

/// Whether every byte is an ASCII character.
pub open spec fn is_ascii_bytes(bytes: Seq<u8>) -> bool {
    forall|i: int| 0 <= i < bytes.len() ==> bytes[i] <= 0x7f
}

/// ASCII bytes as characters, one for one.
pub open spec fn ascii_text(bytes: Seq<u8>) -> Seq<char> {
    Seq::new(bytes.len(), |i: int| bytes[i] as char)
}

/// ASCII bytes stand for themselves: their text has one character for each
/// byte, with the byte's value.
pub proof fn lemma_ascii_text(bytes: Seq<u8>)
    requires
        is_ascii_bytes(bytes),
    ensures
        valid_utf8(bytes),
        utf8_text(bytes) == ascii_text(bytes),
    decreases bytes.len(),
{
    if bytes.len() > 0 {
        let first = bytes[0];
        let rest = pop_first_scalar(bytes);
        assert(first & 0x7f == first) by (bit_vector)
            requires
                first <= 0x7f,
        ;
        assert(valid_first_scalar(bytes));
        assert(length_of_first_scalar(bytes) == 1);
        assert(rest =~= bytes.subrange(1, bytes.len() as int));
        assert(is_ascii_bytes(rest)) by {
            assert forall|i: int| 0 <= i < rest.len() implies rest[i] <= 0x7f by {
                assert(rest[i] == bytes[i + 1]);
            }
        }
        lemma_ascii_text(rest);
        assert(decode_first_scalar(bytes) == first as u32);
        assert(decode_utf8(bytes) =~= ascii_text(bytes)) by {
            assert(decode_utf8(bytes) == seq![decode_first_scalar(bytes) as char] + decode_utf8(
                rest,
            ));
            assert forall|i: int| 0 <= i < bytes.len() implies decode_utf8(bytes)[i]
                == ascii_text(bytes)[i] by {
                if i > 0 {
                    assert(decode_utf8(rest)[i - 1] == ascii_text(rest)[i - 1]);
                    assert(rest[i - 1] == bytes[i]);
                }
            }
        }
    } else {
        assert(decode_utf8(bytes) =~= ascii_text(bytes));
    }
}

/// Signal quality of a record, if the record has it.
pub open spec fn quality_of(raw: IwStats, has_stats: bool) -> Option<IwQuality> {
    if has_stats {
        Option::Some(raw.quality)
    } else {
        Option::None
    }
}

/// Decodes the signal-quality snapshot of a record: the measurement, where
/// the presence flag is set.
pub fn decode_quality(raw: &IwStats, has_stats: bool) -> (quality: Option<IwQuality>)
    ensures
        quality == quality_of(*raw, has_stats),
{
    if has_stats {
        Some(raw.quality)
    } else {
        None
    }
}

/// Maximum bitrate of a record, if the record has it.
pub open spec fn bitrate_of(raw: IwParam, has_maxbitrate: bool) -> Option<i32> {
    if has_maxbitrate {
        Option::Some(raw.value)
    } else {
        Option::None
    }
}

/// Decodes the maximum-bitrate snapshot of a record: its value, where the
/// presence flag is set.
pub fn decode_bitrate(raw: &IwParam, has_maxbitrate: bool) -> (bitrate: Option<i32>)
    ensures
        bitrate == bitrate_of(*raw, has_maxbitrate),
{
    if has_maxbitrate {
        Some(raw.value)
    } else {
        None
    }
}

/// Frequency of a record, if the record has it.
pub open spec fn frequency_of(freq_bits: u64, has_freq: bool) -> Option<u64> {
    if has_freq {
        Option::Some(freq_bits)
    } else {
        Option::None
    }
}

/// Decodes the frequency of a configuration block: its bit pattern, where
/// the presence flag is set.
pub fn decode_frequency(freq_bits: u64, has_freq: bool) -> (frequency: Option<u64>)
    ensures
        frequency == frequency_of(freq_bits, has_freq),
{
    if has_freq {
        Some(freq_bits)
    } else {
        None
    }
}

/// The operating mode that a mode code names. The codes count the modes from
/// zero in the order in which [`WirelessMode`] lists them; any other code
/// names none.
pub open spec fn mode_of_code(code: c_int) -> Option<WirelessMode> {
    if code == 0 {
        Option::Some(WirelessMode::Auto)
    } else if code == 1 {
        Option::Some(WirelessMode::AdHoc)
    } else if code == 2 {
        Option::Some(WirelessMode::Infra)
    } else if code == 3 {
        Option::Some(WirelessMode::Master)
    } else if code == 4 {
        Option::Some(WirelessMode::Repeat)
    } else if code == 5 {
        Option::Some(WirelessMode::Second)
    } else if code == 6 {
        Option::Some(WirelessMode::Monitor)
    } else {
        Option::None
    }
}

/// Operating mode of a record, if the record has one that is known.
pub open spec fn mode_of(code: c_int, has_mode: bool) -> Option<WirelessMode> {
    if has_mode {
        mode_of_code(code)
    } else {
        Option::None
    }
}

/// Decodes the operating mode of a configuration block.
pub fn decode_mode(code: c_int, has_mode: bool) -> (mode: Option<WirelessMode>)
    ensures
        mode == mode_of(code, has_mode),
{
    if !has_mode {
        None
    } else if code == 0 {
        Some(WirelessMode::Auto)
    } else if code == 1 {
        Some(WirelessMode::AdHoc)
    } else if code == 2 {
        Some(WirelessMode::Infra)
    } else if code == 3 {
        Some(WirelessMode::Master)
    } else if code == 4 {
        Some(WirelessMode::Repeat)
    } else if code == 5 {
        Some(WirelessMode::Second)
    } else if code == 6 {
        Some(WirelessMode::Monitor)
    } else {
        None
    }
}

} // verus!
