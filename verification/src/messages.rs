//! The messages of the capabilities' errors, as scripts read them. Each names
//! the function that refused, where the error has one, and what it was
//! given. Where a message shows the value that was refused, the host hands
//! in the text that shows it (`shown`): how a value of the engine is written
//! out is the engine's own matter.

use vstd::prelude::*;
use crate::channel::ChannelError;
use crate::codec::{quote_char, quoted_char, CodecError, HexError};
use crate::crypt::CryptError;
use crate::datetime::TimeError;
use crate::files::{
    EntryError, Field, FindError, PathHint, RangeError, ReadError, RemoveError, RenameError,
};
use crate::json::JsonError;
use crate::process::OptionsError;
use crate::report::{describe_resolution, resolution_message};
use crate::resolver::PathKind;
use crate::spawn::{SendBytesError, SendError, SpawnError, SpawnFailure};
use crate::testing::TestingError;
use crate::text::{decimal_text, write_decimal};
use crate::value::ValueKind;

verus! {

/// The side of a spawn that a channel's method was called on.
#[derive(Clone, Copy, Debug, PartialEq, Eq, Structural)]
pub enum Side {
    /// The script that spawned.
    Parent,
    /// The script that was spawned.
    Child,
}

/// The use of a channel that found the other side gone.
#[derive(Clone, Copy, Debug, PartialEq, Eq, Structural)]
pub enum ChannelUse {
    /// Sending text.
    Send(Side),
    /// Sending bytes.
    SendBytes,
    /// Waiting for text.
    ReadAwait,
}

/// The four conversions between bytes and text.
#[derive(Clone, Copy, Debug, PartialEq, Eq, Structural)]
pub enum CodecUse {
    Base64Encode,
    Base64Decode,
    HexEncode,
    HexDecode,
}

/// The operations on keys and ciphertexts.
#[derive(Clone, Copy, Debug, PartialEq, Eq, Structural)]
pub enum CryptUse {
    AesGenerate,
    AesEncrypt,
    AesDecrypt,
    RsaGenerate,
    RsaEncrypt,
    RsaDecrypt,
}

/// The name of one of the three numbers of a ranged read.
pub open spec fn field_name(field: Field) -> Seq<char> {
    match field {
        Field::BufferOffset => "buffer_offset"@,
        Field::FileOffset => "file_offset"@,
        Field::Count => "count"@,
    }
}

/// The name of one of the three numbers of a ranged read.
pub fn name_of_field(field: Field) -> (out: &'static str)
    ensures
        out@ == field_name(field),
{
    match field {
        Field::BufferOffset => "buffer_offset",
        Field::FileOffset => "file_offset",
        Field::Count => "count",
    }
}

/// The message of a ranged read that was refused. Two of the texts name no
/// function: they hold a pair of braces in its place.
pub open spec fn read_error_message(e: ReadError, name: Seq<char>, shown: Seq<char>) -> Seq<char> {
    match e {
        ReadError::NotANumber { field, got } => name + " expected "@ + field_name(field) + " to be a number (integer), got: "@ + shown,
        ReadError::NotWhole(field) => name + " expected "@ + field_name(field) + " to be an integer number, got floating point number"@,
        ReadError::Missing(field) => match field {
            Field::BufferOffset => "{} expected buffer_offset, got nothing (not even nil)"@,
            Field::FileOffset => name + " expected file_offset, got nothing (not even nil)"@,
            Field::Count => name + " expected count, got nothing"@,
        },
        ReadError::CountIsNil => "{}: count cannot be nil"@,
        ReadError::Negative(field) => name + ": "@ + field_name(field) + " cannot be negative"@,
        ReadError::BufferTooSmall { needed, size, count } => name + ": target buffer too small! buffer_offset + count is "@ + decimal_text(needed as nat) + ", which is larger than the provided buffer ("@ + decimal_text(count as nat) + ")"@,
        ReadError::PastEndOfFile { needed, size } => name + ": file_offset + count ("@ + decimal_text(needed as nat) + ") is greater than the file size ("@ + decimal_text(size as nat) + ")"@,
    }
}

/// The message of a ranged read that was refused. Two of the texts name no
/// function: they hold a pair of braces in its place.
pub fn describe_read_error(e: &ReadError, name: &str, shown: &str) -> (out: String)
    ensures
        out@ == read_error_message(*e, name@, shown@),
{
    let mut out = String::new();
    match e {
        ReadError::NotANumber { field, got } => {
            out.append(name);
            out.append(" expected ");
            out.append(name_of_field(*field));
            out.append(" to be a number (integer), got: ");
            out.append(shown);
        },
        ReadError::NotWhole(field) => {
            out.append(name);
            out.append(" expected ");
            out.append(name_of_field(*field));
            out.append(" to be an integer number, got floating point number");
        },
        ReadError::Missing(field) => {
            match field {
                Field::BufferOffset => {
                    out.append("{} expected buffer_offset, got nothing (not even nil)");
                },
                Field::FileOffset => {
                    out.append(name);
                    out.append(" expected file_offset, got nothing (not even nil)");
                },
                Field::Count => {
                    out.append(name);
                    out.append(" expected count, got nothing");
                },
            }
        },
        ReadError::CountIsNil => {
            out.append("{}: count cannot be nil");
        },
        ReadError::Negative(field) => {
            out.append(name);
            out.append(": ");
            out.append(name_of_field(*field));
            out.append(" cannot be negative");
        },
        ReadError::BufferTooSmall { needed, size, count } => {
            out.append(name);
            out.append(": target buffer too small! buffer_offset + count is ");
            write_decimal(*needed as u64, &mut out);
            out.append(", which is larger than the provided buffer (");
            write_decimal(*count as u64, &mut out);
            out.append(")");
        },
        ReadError::PastEndOfFile { needed, size } => {
            out.append(name);
            out.append(": file_offset + count (");
            write_decimal(*needed as u64, &mut out);
            out.append(") is greater than the file size (");
            write_decimal(*size as u64, &mut out);
            out.append(")");
        },
    }
    assert(out@ =~= read_error_message(*e, name@, shown@));
    out
}

/// The message of a read by first and last byte that was refused.
pub open spec fn range_error_message(e: RangeError, name: Seq<char>, shown: Seq<char>) -> Seq<char> {
    match e {
        RangeError::StartNegative => name + ": start byte s must be >= 0!!"@,
        RangeError::FinishNotPositive => name + ": final byte f must be positive!!"@,
        RangeError::FinishMissing => name + "(file_path, s: number, f: number): missing final byte f; if s is provided then f must also be provided"@,
        RangeError::StartNotANumber(got) => name + "(file_path, s: number?, f: number?) expected s to be a number, got: "@ + shown,
        RangeError::FinishNotANumber(got) => name + "(file_path, s: number?, f: number?) expected f to be a number, got: "@ + shown,
        RangeError::Reversed => name + ": final byte f lies before start byte s"@,
    }
}

/// The message of a read by first and last byte that was refused.
pub fn describe_range_error(e: &RangeError, name: &str, shown: &str) -> (out: String)
    ensures
        out@ == range_error_message(*e, name@, shown@),
{
    let mut out = String::new();
    match e {
        RangeError::StartNegative => {
            out.append(name);
            out.append(": start byte s must be >= 0!!");
        },
        RangeError::FinishNotPositive => {
            out.append(name);
            out.append(": final byte f must be positive!!");
        },
        RangeError::FinishMissing => {
            out.append(name);
            out.append("(file_path, s: number, f: number): missing final byte f; if s is provided then f must also be provided");
        },
        RangeError::StartNotANumber(got) => {
            out.append(name);
            out.append("(file_path, s: number?, f: number?) expected s to be a number, got: ");
            out.append(shown);
        },
        RangeError::FinishNotANumber(got) => {
            out.append(name);
            out.append("(file_path, s: number?, f: number?) expected f to be a number, got: ");
            out.append(shown);
        },
        RangeError::Reversed => {
            out.append(name);
            out.append(": final byte f lies before start byte s");
        },
    }
    assert(out@ =~= range_error_message(*e, name@, shown@));
    out
}

/// The message of a value that was not encoded.
pub open spec fn json_error_message(e: JsonError, shown: Seq<char>) -> Seq<char> {
    match e {
        JsonError::NotATable(got) => "json.encode expected the value to encode to be a table, got: "@ + shown,
        JsonError::Nothing => "json.encode expected a value to encode, got nothing"@,
        JsonError::OptionsNotATable(got) => "json.encode(value: any, options: EncodeOptions) expected options to be a table, got: "@ + shown,
        JsonError::PrettyNotAFlag(got) => "EncodeOptions.pretty expected to be a boolean or nil, got: "@ + shown,
        JsonError::SortedNotAFlag(got) => "EncodeOptions.sorted expected to be a boolean or nil, got: "@ + shown,
        JsonError::NotJson => "json.encode: error encoding json: the text does not read as json"@,
        JsonError::NotWritable => "json.encode: error encoding json: the value cannot be written"@,
    }
}

/// The message of a value that was not encoded.
pub fn describe_json_error(e: &JsonError, shown: &str) -> (out: String)
    ensures
        out@ == json_error_message(*e, shown@),
{
    let mut out = String::new();
    match e {
        JsonError::NotATable(got) => {
            out.append("json.encode expected the value to encode to be a table, got: ");
            out.append(shown);
        },
        JsonError::Nothing => {
            out.append("json.encode expected a value to encode, got nothing");
        },
        JsonError::OptionsNotATable(got) => {
            out.append("json.encode(value: any, options: EncodeOptions) expected options to be a table, got: ");
            out.append(shown);
        },
        JsonError::PrettyNotAFlag(got) => {
            out.append("EncodeOptions.pretty expected to be a boolean or nil, got: ");
            out.append(shown);
        },
        JsonError::SortedNotAFlag(got) => {
            out.append("EncodeOptions.sorted expected to be a boolean or nil, got: ");
            out.append(shown);
        },
        JsonError::NotJson => {
            out.append("json.encode: error encoding json: the text does not read as json");
        },
        JsonError::NotWritable => {
            out.append("json.encode: error encoding json: the value cannot be written");
        },
    }
    assert(out@ =~= json_error_message(*e, shown@));
    out
}

/// The message of a check that was refused. `returned` says whether the call
/// that `match` looks at had returned: the text names the handler that was
/// asked for.
pub open spec fn testing_error_message(e: TestingError, returned: bool, shown: Seq<char>) -> Seq<char> {
    match e {
        TestingError::NotAFunction(got) => "try expected a function, got "@ + shown,
        TestingError::BadHandler(got) => "Expected error handler to be a function or a string (to string.match an error against), got: "@ + shown,
        TestingError::HandlersNotATable(got) => match returned {
            true => "TryResult:match() expected handler to be a table with field 'ok', got "@ + shown,
            false => "TryResult:match() expected handler to be a table with field 'err', got "@ + shown,
        },
    }
}

/// The message of a check that was refused. `returned` says whether the call
/// that `match` looks at had returned: the text names the handler that was
/// asked for.
pub fn describe_testing_error(e: &TestingError, returned: bool, shown: &str) -> (out: String)
    ensures
        out@ == testing_error_message(*e, returned, shown@),
{
    let mut out = String::new();
    match e {
        TestingError::NotAFunction(got) => {
            out.append("try expected a function, got ");
            out.append(shown);
        },
        TestingError::BadHandler(got) => {
            out.append("Expected error handler to be a function or a string (to string.match an error against), got: ");
            out.append(shown);
        },
        TestingError::HandlersNotATable(got) => {
            match returned {
                true => {
                    out.append("TryResult:match() expected handler to be a table with field 'ok', got ");
                    out.append(shown);
                },
                false => {
                    out.append("TryResult:match() expected handler to be a table with field 'err', got ");
                    out.append(shown);
                },
            }
        },
    }
    assert(out@ =~= testing_error_message(*e, returned, shown@));
    out
}

/// The message of run options that were refused. Where nil stood in place
/// of the options the text says so itself; any other value is shown.
pub open spec fn options_error_message(e: OptionsError, name: Seq<char>, shown: Seq<char>) -> Seq<char> {
    match e {
        OptionsError::NotATable(got) => match got {
            ValueKind::Nil => name + " expected RunOptions table of type { program: string, args: {string}?, shell: string? }, got nil."@,
            _ => name + " expected RunOptions table of type { program: string, args: {string}?, shell: string? }, got: "@ + shown,
        },
        OptionsError::ProgramMissing => "RunOptions missing field `program`; expected string, got nil"@,
        OptionsError::ProgramNotText(got) => "RunOptions.program expected to be a string, got: "@ + shown,
        OptionsError::ArgsNotAList(got) => "RunOptions.args expected to be {string} or nil, got: "@ + shown,
        OptionsError::ShellNotText(got) => "RunOptions.shell expected to be a string or nil, got: "@ + shown,
    }
}

/// The message of run options that were refused. Where nil stood in place
/// of the options the text says so itself; any other value is shown.
pub fn describe_options_error(e: &OptionsError, name: &str, shown: &str) -> (out: String)
    ensures
        out@ == options_error_message(*e, name@, shown@),
{
    let mut out = String::new();
    match e {
        OptionsError::NotATable(got) => {
            match got {
                ValueKind::Nil => {
                    out.append(name);
                    out.append(" expected RunOptions table of type { program: string, args: {string}?, shell: string? }, got nil.");
                },
                _ => {
                    out.append(name);
                    out.append(" expected RunOptions table of type { program: string, args: {string}?, shell: string? }, got: ");
                    out.append(shown);
                },
            }
        },
        OptionsError::ProgramMissing => {
            out.append("RunOptions missing field `program`; expected string, got nil");
        },
        OptionsError::ProgramNotText(got) => {
            out.append("RunOptions.program expected to be a string, got: ");
            out.append(shown);
        },
        OptionsError::ArgsNotAList(got) => {
            out.append("RunOptions.args expected to be {string} or nil, got: ");
            out.append(shown);
        },
        OptionsError::ShellNotText(got) => {
            out.append("RunOptions.shell expected to be a string or nil, got: ");
            out.append(shown);
        },
    }
    assert(out@ =~= options_error_message(*e, name@, shown@));
    out
}

/// The message of a send that was refused, by the side that sent.
pub open spec fn send_error_message(e: SendError, side: Side, shown: Seq<char>) -> Seq<char> {
    match e {
        SendError::Nothing => match side {
            Side::Parent => "thread.send expected value, got nothing"@,
            Side::Child => "channel:send() (in thread) expected some json-serializable data, got nothing"@,
        },
        SendError::NotSendable(got) => match side {
            Side::Parent => "thread.send expected string or table (to stringify as json), got "@ + shown,
            Side::Child => "channel:send() (in thread) expected string or json-serializable data, got: "@ + shown,
        },
    }
}

/// The message of a send that was refused, by the side that sent.
pub fn describe_send_error(e: &SendError, side: Side, shown: &str) -> (out: String)
    ensures
        out@ == send_error_message(*e, side, shown@),
{
    let mut out = String::new();
    match e {
        SendError::Nothing => {
            match side {
                Side::Parent => {
                    out.append("thread.send expected value, got nothing");
                },
                Side::Child => {
                    out.append("channel:send() (in thread) expected some json-serializable data, got nothing");
                },
            }
        },
        SendError::NotSendable(got) => {
            match side {
                Side::Parent => {
                    out.append("thread.send expected string or table (to stringify as json), got ");
                    out.append(shown);
                },
                Side::Child => {
                    out.append("channel:send() (in thread) expected string or json-serializable data, got: ");
                    out.append(shown);
                },
            }
        },
    }
    assert(out@ =~= send_error_message(*e, side, shown@));
    out
}

/// The message of a send of bytes that was refused.
pub open spec fn sendbytes_error_message(e: SendBytesError, shown: Seq<char>) -> Seq<char> {
    match e {
        SendBytesError::CalledWithNothing => "channel:sendbytes(buffer: buffer) was called with nothing."@,
        SendBytesError::HandleIsBuffer => "channel:sendbytes expected self to be a table, got buffer. Did you accidentally call this method with a . instead of : ?"@,
        SendBytesError::HandleNotTable(got) => "channel:sendbytes expected self, got: "@ + shown,
        SendBytesError::NoBuffer => "channel:sendbytes(buffer: buffer) didn't get a buffer."@,
        SendBytesError::NotABuffer(got) => "channel:sendbytes expected a byte buffer, got: "@ + shown,
    }
}

/// The message of a send of bytes that was refused.
pub fn describe_sendbytes_error(e: &SendBytesError, shown: &str) -> (out: String)
    ensures
        out@ == sendbytes_error_message(*e, shown@),
{
    let mut out = String::new();
    match e {
        SendBytesError::CalledWithNothing => {
            out.append("channel:sendbytes(buffer: buffer) was called with nothing.");
        },
        SendBytesError::HandleIsBuffer => {
            out.append("channel:sendbytes expected self to be a table, got buffer. Did you accidentally call this method with a . instead of : ?");
        },
        SendBytesError::HandleNotTable(got) => {
            out.append("channel:sendbytes expected self, got: ");
            out.append(shown);
        },
        SendBytesError::NoBuffer => {
            out.append("channel:sendbytes(buffer: buffer) didn't get a buffer.");
        },
        SendBytesError::NotABuffer(got) => {
            out.append("channel:sendbytes expected a byte buffer, got: ");
            out.append(shown);
        },
    }
    assert(out@ =~= sendbytes_error_message(*e, shown@));
    out
}

/// The message of a channel whose other side is gone, by the use that found
/// it so. It ends with the words that the queue itself has for the failure.
pub open spec fn channel_error_message(e: ChannelError, found_by: ChannelUse) -> Seq<char> {
    match e {
        ChannelError::Disconnected => match found_by {
            ChannelUse::Send(Side::Parent) => "Some SendError occured: sending on a disconnected channel"@,
            ChannelUse::Send(Side::Child) => "channel:send() (in thread) Unable to send data: sending on a disconnected channel"@,
            ChannelUse::SendBytes => "channel:sendbytes hit a SendError: sending on a disconnected channel"@,
            ChannelUse::ReadAwait => "channel:read_await: RecvError: receiving on an empty and disconnected channel"@,
        },
    }
}

/// The message of a channel whose other side is gone, by the use that found
/// it so. It ends with the words that the queue itself has for the failure.
pub fn describe_channel_error(e: &ChannelError, found_by: ChannelUse) -> (out: String)
    ensures
        out@ == channel_error_message(*e, found_by),
{
    let mut out = String::new();
    match e {
        ChannelError::Disconnected => {
            match found_by {
                ChannelUse::Send(Side::Parent) => {
                    out.append("Some SendError occured: sending on a disconnected channel");
                },
                ChannelUse::Send(Side::Child) => {
                    out.append("channel:send() (in thread) Unable to send data: sending on a disconnected channel");
                },
                ChannelUse::SendBytes => {
                    out.append("channel:sendbytes hit a SendError: sending on a disconnected channel");
                },
                ChannelUse::ReadAwait => {
                    out.append("channel:read_await: RecvError: receiving on an empty and disconnected channel");
                },
            }
        },
    }
    assert(out@ =~= channel_error_message(*e, found_by));
    out
}

/// The message of a conversion between bytes and text that failed, by the
/// conversion. Text that is no base64 is reported under the name of the
/// encoding function.
pub open spec fn codec_error_message(e: CodecError, conversion: CodecUse, shown: Seq<char>) -> Seq<char> {
    match e {
        CodecError::TextForBuffer => "serde.base64.encode: got string, please pass buffer instead"@,
        CodecError::WrongKind(got) => match conversion {
            CodecUse::Base64Encode => "serde.base64.encode expected buffer, got: "@ + shown,
            CodecUse::Base64Decode => "serde.base64.decode expected string, got: "@ + shown,
            CodecUse::HexEncode => "serde.hex.encode: expected buffer (or string), got: "@ + shown,
            CodecUse::HexDecode => "serde.hex.decode: expected string, got: "@ + shown,
        },
        CodecError::Malformed => "serde.base64.encode: error decoding base64: the text is not in the encoding"@,
        CodecError::Hex(HexError::OddLength) => "serde.hex.decode: unable to decode hex string: Odd number of digits"@,
        CodecError::Hex(HexError::InvalidCharacter { byte, index }) => "serde.hex.decode: unable to decode hex string: Invalid character "@ + quoted_char(byte) + " at position "@ + decimal_text(index as nat),
    }
}

/// The message of a conversion between bytes and text that failed, by the
/// conversion. Text that is no base64 is reported under the name of the
/// encoding function.
pub fn describe_codec_error(e: &CodecError, conversion: CodecUse, shown: &str) -> (out: String)
    ensures
        out@ == codec_error_message(*e, conversion, shown@),
{
    let mut out = String::new();
    match e {
        CodecError::TextForBuffer => {
            out.append("serde.base64.encode: got string, please pass buffer instead");
        },
        CodecError::WrongKind(got) => {
            match conversion {
                CodecUse::Base64Encode => {
                    out.append("serde.base64.encode expected buffer, got: ");
                    out.append(shown);
                },
                CodecUse::Base64Decode => {
                    out.append("serde.base64.decode expected string, got: ");
                    out.append(shown);
                },
                CodecUse::HexEncode => {
                    out.append("serde.hex.encode: expected buffer (or string), got: ");
                    out.append(shown);
                },
                CodecUse::HexDecode => {
                    out.append("serde.hex.decode: expected string, got: ");
                    out.append(shown);
                },
            }
        },
        CodecError::Malformed => {
            out.append("serde.base64.encode: error decoding base64: the text is not in the encoding");
        },
        CodecError::Hex(HexError::OddLength) => {
            out.append("serde.hex.decode: unable to decode hex string: Odd number of digits");
        },
        CodecError::Hex(HexError::InvalidCharacter { byte, index }) => {
            out.append("serde.hex.decode: unable to decode hex string: Invalid character ");
            let quoted = quote_char(*byte);
            out.append(quoted.as_str());
            out.append(" at position ");
            write_decimal(*index as u64, &mut out);
        },
    }
    assert(out@ =~= codec_error_message(*e, conversion, shown@));
    out
}

/// The message of an operation on keys or ciphertexts that failed, by the
/// operation. An error that an operation cannot give reads as it does for
/// the operation that can.
pub open spec fn crypt_error_message(e: CryptError, operation: CryptUse) -> Seq<char> {
    match e {
        CryptError::RandomFailed => "crypt: error creating aes key (filling the buffer)"@,
        CryptError::KeyNotBase64 => match operation {
            CryptUse::AesDecrypt => "crypt.aes.decrypt: cannot decode AES key from base64"@,
            _ => "crypt.aes.encode: unable to decode AES key from base64"@,
        },
        CryptError::KeyLength(length) => match operation {
            CryptUse::AesDecrypt => "crypt.aes.decrypt: AES key must be 32 bytes to decrypt AES-256, got "@ + decimal_text(length as nat),
            _ => "crypt.aes.encrypt: AES key must be 32 bytes to encrypt AES-256, got "@ + decimal_text(length as nat),
        },
        CryptError::CiphertextNotBase64 => match operation {
            CryptUse::RsaDecrypt => "crypt.rsa.decrypt: unable to decode encrypted text from base64"@,
            _ => "crypt.aes.decrypt: unable to decode ciphertext from base64"@,
        },
        CryptError::EncryptionFailed => match operation {
            CryptUse::AesEncrypt => "crypt.aes.encrypt: unable to encrypt"@,
            _ => "crypt.rsa.encrypt: encryption failed"@,
        },
        CryptError::DecryptionFailed => match operation {
            CryptUse::AesDecrypt => "crypt.aes.decrypt: unable to decrypt ciphertext"@,
            _ => "crypt.rsa.decrypt: decryption failed"@,
        },
        CryptError::KeyNotPem => match operation {
            CryptUse::RsaDecrypt => "crypt.rsa.decrypt: unable to decode private key from PEM (pkcs8_pem)"@,
            _ => "crypt.rsa.encrypt: unable to decode public key from PEM"@,
        },
        CryptError::KeyGenerationFailed => "crypt.rsa: error generating private key"@,
        CryptError::PrivateKeyEncoding => "crypt.rsa: error encoding private key to pkcs1_pem"@,
        CryptError::PublicKeyEncoding => "crypt.rsa: error encoding public key to pkcs1_pem"@,
    }
}

/// The message of an operation on keys or ciphertexts that failed, by the
/// operation. An error that an operation cannot give reads as it does for
/// the operation that can.
pub fn describe_crypt_error(e: &CryptError, operation: CryptUse) -> (out: String)
    ensures
        out@ == crypt_error_message(*e, operation),
{
    let mut out = String::new();
    match e {
        CryptError::RandomFailed => {
            out.append("crypt: error creating aes key (filling the buffer)");
        },
        CryptError::KeyNotBase64 => {
            match operation {
                CryptUse::AesDecrypt => {
                    out.append("crypt.aes.decrypt: cannot decode AES key from base64");
                },
                _ => {
                    out.append("crypt.aes.encode: unable to decode AES key from base64");
                },
            }
        },
        CryptError::KeyLength(length) => {
            match operation {
                CryptUse::AesDecrypt => {
                    out.append("crypt.aes.decrypt: AES key must be 32 bytes to decrypt AES-256, got ");
                    write_decimal(*length as u64, &mut out);
                },
                _ => {
                    out.append("crypt.aes.encrypt: AES key must be 32 bytes to encrypt AES-256, got ");
                    write_decimal(*length as u64, &mut out);
                },
            }
        },
        CryptError::CiphertextNotBase64 => {
            match operation {
                CryptUse::RsaDecrypt => {
                    out.append("crypt.rsa.decrypt: unable to decode encrypted text from base64");
                },
                _ => {
                    out.append("crypt.aes.decrypt: unable to decode ciphertext from base64");
                },
            }
        },
        CryptError::EncryptionFailed => {
            match operation {
                CryptUse::AesEncrypt => {
                    out.append("crypt.aes.encrypt: unable to encrypt");
                },
                _ => {
                    out.append("crypt.rsa.encrypt: encryption failed");
                },
            }
        },
        CryptError::DecryptionFailed => {
            match operation {
                CryptUse::AesDecrypt => {
                    out.append("crypt.aes.decrypt: unable to decrypt ciphertext");
                },
                _ => {
                    out.append("crypt.rsa.decrypt: decryption failed");
                },
            }
        },
        CryptError::KeyNotPem => {
            match operation {
                CryptUse::RsaDecrypt => {
                    out.append("crypt.rsa.decrypt: unable to decode private key from PEM (pkcs8_pem)");
                },
                _ => {
                    out.append("crypt.rsa.encrypt: unable to decode public key from PEM");
                },
            }
        },
        CryptError::KeyGenerationFailed => {
            out.append("crypt.rsa: error generating private key");
        },
        CryptError::PrivateKeyEncoding => {
            out.append("crypt.rsa: error encoding private key to pkcs1_pem");
        },
        CryptError::PublicKeyEncoding => {
            out.append("crypt.rsa: error encoding public key to pkcs1_pem");
        },
    }
    assert(out@ =~= crypt_error_message(*e, operation));
    out
}

/// The message of a moment that was refused.
pub open spec fn time_error_message(e: TimeError, shown: Seq<char>) -> Seq<char> {
    match e {
        TimeError::TimestampNotANumber(got) => "datetime.from(unix_timestamp) expected unix_timestamp to be a number, got: "@ + shown,
        TimeError::TimestampMissing => "datetime.from(unix_timestamp) expected unix_timestamp, got nothing"@,
        TimeError::FormatNotText(got) => "DateTime.format expected format string to be a string, got: "@ + shown,
        TimeError::FormatMissing => "DateTime.format expected format string to be a string, got: None"@,
        TimeError::NotFormattable => "DateTime.format: the moment cannot be written in this format"@,
    }
}

/// The message of a moment that was refused.
pub fn describe_time_error(e: &TimeError, shown: &str) -> (out: String)
    ensures
        out@ == time_error_message(*e, shown@),
{
    let mut out = String::new();
    match e {
        TimeError::TimestampNotANumber(got) => {
            out.append("datetime.from(unix_timestamp) expected unix_timestamp to be a number, got: ");
            out.append(shown);
        },
        TimeError::TimestampMissing => {
            out.append("datetime.from(unix_timestamp) expected unix_timestamp, got nothing");
        },
        TimeError::FormatNotText(got) => {
            out.append("DateTime.format expected format string to be a string, got: ");
            out.append(shown);
        },
        TimeError::FormatMissing => {
            out.append("DateTime.format expected format string to be a string, got: None");
        },
        TimeError::NotFormattable => {
            out.append("DateTime.format: the moment cannot be written in this format");
        },
    }
    assert(out@ =~= time_error_message(*e, shown@));
    out
}

/// The message of a spawn that was refused.
pub open spec fn spawn_error_message(e: SpawnFailure, shown: Seq<char>) -> Seq<char> {
    match e {
        SpawnFailure::NotATable(got) => "thread.spawn: expected ThreadSpawnOptions table, got: "@ + shown,
        SpawnFailure::MissingSource => "thread.spawn expected table with fields src or path, got neither"@,
        SpawnFailure::Resolution(r) => "thread.spawn: "@ + resolution_message(r),
    }
}

/// The message of a spawn that was refused.
pub fn describe_spawn_error(e: &SpawnError, shown: &str) -> (out: String)
    ensures
        out@ == spawn_error_message(e@, shown@),
{
    let mut out = String::new();
    match e {
        SpawnError::NotATable(got) => {
            out.append("thread.spawn: expected ThreadSpawnOptions table, got: ");
            out.append(shown);
        },
        SpawnError::MissingSource => {
            out.append("thread.spawn expected table with fields src or path, got neither");
        },
        SpawnError::Resolution(r) => {
            out.append("thread.spawn: ");
            let inner = describe_resolution(r);
            out.append(inner.as_str());
        },
    }
    assert(out@ =~= spawn_error_message(e@, shown@));
    out
}

/// The message of a method of an entry that was refused.
pub open spec fn entry_error_message(e: EntryError, name: Seq<char>, shown: Seq<char>) -> Seq<char> {
    match e {
        EntryError::NotAMethodCall(got) => name + " expected to be called with self (method call), got: "@ + shown,
        EntryError::PathNotText(got) => name + " expected self.path to be a string, got: "@ + shown,
    }
}

/// The message of a method of an entry that was refused.
pub fn describe_entry_error(e: &EntryError, name: &str, shown: &str) -> (out: String)
    ensures
        out@ == entry_error_message(*e, name@, shown@),
{
    let mut out = String::new();
    match e {
        EntryError::NotAMethodCall(got) => {
            out.append(name);
            out.append(" expected to be called with self (method call), got: ");
            out.append(shown);
        },
        EntryError::PathNotText(got) => {
            out.append(name);
            out.append(" expected self.path to be a string, got: ");
            out.append(shown);
        },
    }
    assert(out@ =~= entry_error_message(*e, name@, shown@));
    out
}

/// The hint for a path that was not found.
pub open spec fn path_hint_message(e: PathHint, name: Seq<char>, path: Seq<char>) -> Seq<char> {
    match e {
        PathHint::MissingLeadingSlash => name + ": provided path '"@ + path + "' doesn't exist but an absolute path of it ('/"@ + path + "') does; did you mean to prepend '/' to it?"@,
        PathHint::LooksAbsolute => name + ": path '"@ + path + "' looks like an absolute path but doesn't start with '/', did you mean to provide an absolute path?"@,
    }
}

/// The hint for a path that was not found.
pub fn describe_path_hint(e: &PathHint, name: &str, path: &str) -> (out: String)
    ensures
        out@ == path_hint_message(*e, name@, path@),
{
    let mut out = String::new();
    match e {
        PathHint::MissingLeadingSlash => {
            out.append(name);
            out.append(": provided path '");
            out.append(path);
            out.append("' doesn't exist but an absolute path of it ('/");
            out.append(path);
            out.append("') does; did you mean to prepend '/' to it?");
        },
        PathHint::LooksAbsolute => {
            out.append(name);
            out.append(": path '");
            out.append(path);
            out.append("' looks like an absolute path but doesn't start with '/', did you mean to provide an absolute path?");
        },
    }
    assert(out@ =~= path_hint_message(*e, name@, path@));
    out
}

/// The message of a new name that was refused.
pub open spec fn rename_error_message(e: RenameError) -> Seq<char> {
    match e {
        RenameError::NameHoldsSeparator => "Entry:remove(): Entry name not allowed to contain '/'; use Entry:move_to(destination) to move a file"@,
    }
}

/// The message of a new name that was refused.
pub fn describe_rename_error(e: &RenameError) -> (out: String)
    ensures
        out@ == rename_error_message(*e),
{
    let mut out = String::new();
    match e {
        RenameError::NameHoldsSeparator => {
            out.append("Entry:remove(): Entry name not allowed to contain '/'; use Entry:move_to(destination) to move a file");
        },
    }
    assert(out@ =~= rename_error_message(*e));
    out
}

/// The message of a removal of a directory that was refused.
pub open spec fn remove_error_message(e: RemoveError, path: Seq<char>, shown: Seq<char>) -> Seq<char> {
    match e {
        RemoveError::ForceNotAFlag(got) => "fs.remove expected RemoveDirectoryOptions.force to be string? (string or the default, nil), got: "@ + shown,
        RemoveError::OverrideNotAFlag(got) => "fs.remove: remove_absolute_path expected to be boolean (default false), you gave me a "@ + shown + ", why?"@,
        RemoveError::AbsolutePathRefused => "fs.remove: attempted to remove a directory by absolute path.\nThis could be a critical directory, so please be careful. Directory: "@ + path + ". If you're absolutely sure your code cannot unintentionally destroy a critical directory like /, /root, /boot, or on windows, C:\\System32 or something, then feel free to set RemoveDirectoryOptions.remove_absolute_path to true."@,
    }
}

/// The message of a removal of a directory that was refused.
pub fn describe_remove_error(e: &RemoveError, path: &str, shown: &str) -> (out: String)
    ensures
        out@ == remove_error_message(*e, path@, shown@),
{
    let mut out = String::new();
    match e {
        RemoveError::ForceNotAFlag(got) => {
            out.append("fs.remove expected RemoveDirectoryOptions.force to be string? (string or the default, nil), got: ");
            out.append(shown);
        },
        RemoveError::OverrideNotAFlag(got) => {
            out.append("fs.remove: remove_absolute_path expected to be boolean (default false), you gave me a ");
            out.append(shown);
            out.append(", why?");
        },
        RemoveError::AbsolutePathRefused => {
            out.append("fs.remove: attempted to remove a directory by absolute path.\nThis could be a critical directory, so please be careful. Directory: ");
            out.append(path);
            out.append(". If you're absolutely sure your code cannot unintentionally destroy a critical directory like /, /root, /boot, or on windows, C:\\System32 or something, then feel free to set RemoveDirectoryOptions.remove_absolute_path to true.");
        },
    }
    assert(out@ =~= remove_error_message(*e, path@, shown@));
    out
}

/// The message of a search for an entry of one kind that failed, by the kind
/// that was wanted: a file, or else a directory. `detail` is what the
/// system says of a failure of another sort.
pub open spec fn find_error_message(e: FindError, wanted: PathKind, path: Seq<char>, detail: Seq<char>) -> Seq<char> {
    match e {
        FindError::WrongKind => match wanted {
            PathKind::File => "fs.file: requested file at path '"@ + path + "' is actually a directory"@,
            _ => "fs.dir: requested directory at path '"@ + path + "' is actually a file"@,
        },
        FindError::Denied => match wanted {
            PathKind::File => "fs.file: attempted to find file at path '"@ + path + "' but permission denied"@,
            _ => "fs.dir: attempted to find directory at path '"@ + path + "' but permission denied"@,
        },
        FindError::Other => match wanted {
            PathKind::File => "fs.file: error getting metadata for file at path '"@ + path + "': "@ + detail,
            _ => "fs.dir: error getting metadata for directory at path '"@ + path + "': "@ + detail,
        },
    }
}

/// The message of a search for an entry of one kind that failed, by the kind
/// that was wanted: a file, or else a directory. `detail` is what the
/// system says of a failure of another sort.
pub fn describe_find_error(e: &FindError, wanted: PathKind, path: &str, detail: &str) -> (out: String)
    ensures
        out@ == find_error_message(*e, wanted, path@, detail@),
{
    let mut out = String::new();
    match e {
        FindError::WrongKind => {
            match wanted {
                PathKind::File => {
                    out.append("fs.file: requested file at path '");
                    out.append(path);
                    out.append("' is actually a directory");
                },
                _ => {
                    out.append("fs.dir: requested directory at path '");
                    out.append(path);
                    out.append("' is actually a file");
                },
            }
        },
        FindError::Denied => {
            match wanted {
                PathKind::File => {
                    out.append("fs.file: attempted to find file at path '");
                    out.append(path);
                    out.append("' but permission denied");
                },
                _ => {
                    out.append("fs.dir: attempted to find directory at path '");
                    out.append(path);
                    out.append("' but permission denied");
                },
            }
        },
        FindError::Other => {
            match wanted {
                PathKind::File => {
                    out.append("fs.file: error getting metadata for file at path '");
                    out.append(path);
                    out.append("': ");
                    out.append(detail);
                },
                _ => {
                    out.append("fs.dir: error getting metadata for directory at path '");
                    out.append(path);
                    out.append("': ");
                    out.append(detail);
                },
            }
        },
    }
    assert(out@ =~= find_error_message(*e, wanted, path@, detail@));
    out
}

} // verus!
