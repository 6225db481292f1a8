//! The capability registry: a fixed table from reserved alias strings to the
//! factories that build capability values. Looking an alias up never reads
//! the requester's path nor the filesystem.

use vstd::prelude::*;
use crate::text::{chars_start_with, to_chars, chars_eq};

verus! {

/// The factories that the host provides. Each builds a fresh capability
/// value every time it is asked.
#[derive(Clone, Copy, Debug, PartialEq, Eq, Structural)]
pub enum Capability {
    Fs,
    FsPath,
    Env,
    Io,
    IoInput,
    IoOutput,
    IoClear,
    Colors,
    Format,
    Time,
    Datetime,
    Process,
    Serde,
    SerdeBase64,
    SerdeToml,
    SerdeYaml,
    SerdeHex,
    Json,
    Net,
    NetHttp,
    NetHttpServer,
    NetRequest,
    Crypt,
    CryptAes,
    CryptRsa,
    CryptHash,
    CryptPassword,
    Thread,
    Testing,
    TestingTry,
    Std,
    Interop,
    InteropMlua,
}

/// What a factory hands to the script: a table of functions and constants,
/// or one function.
#[derive(Clone, Copy, Debug, PartialEq, Eq, Structural)]
pub enum CapabilityShape {
    Table,
    Function,
}

/// One row of the registry.
#[derive(Clone, Copy, Debug)]
pub struct CapabilityDescriptor {
    pub alias: &'static str,
    pub factory: Capability,
}

impl View for CapabilityDescriptor {
    type V = (Seq<char>, Capability);

    open spec fn view(&self) -> (Seq<char>, Capability) {
        (self.alias@, self.factory)
    }
}

/// The shape of the value that `cap` builds.
pub open spec fn shape_of(cap: Capability) -> CapabilityShape {
    match cap {
        Capability::IoClear
        | Capability::Format
        | Capability::NetRequest
        | Capability::TestingTry => CapabilityShape::Function,
        _ => CapabilityShape::Table,
    }
}

/// Number of rows of the registry.
pub const ALIAS_COUNT: usize = 35;

/// Number of members of the aggregate capability.
pub const AGGREGATE_COUNT: usize = 14;

/// Row `i` of the registry; past the end, the last row.
pub open spec fn alias_row(i: int) -> (Seq<char>, Capability) {
    if i == 0 {
        ("@std/fs"@, Capability::Fs)
    } else if i == 1 {
        ("@std/fs/path"@, Capability::FsPath)
    } else if i == 2 {
        ("@std/env"@, Capability::Env)
    } else if i == 3 {
        ("@std/io"@, Capability::Io)
    } else if i == 4 {
        ("@std/io/input"@, Capability::IoInput)
    } else if i == 5 {
        ("@std/io/output"@, Capability::IoOutput)
    } else if i == 6 {
        ("@std/io/colors"@, Capability::Colors)
    } else if i == 7 {
        ("@std/io/clear"@, Capability::IoClear)
    } else if i == 8 {
        ("@std/colors"@, Capability::Colors)
    } else if i == 9 {
        ("@std/time"@, Capability::Time)
    } else if i == 10 {
        ("@std/time/datetime"@, Capability::Datetime)
    } else if i == 11 {
        ("@std/datetime"@, Capability::Datetime)
    } else if i == 12 {
        ("@std/process"@, Capability::Process)
    } else if i == 13 {
        ("@std/serde"@, Capability::Serde)
    } else if i == 14 {
        ("@std/serde/base64"@, Capability::SerdeBase64)
    } else if i == 15 {
        ("@std/serde/toml"@, Capability::SerdeToml)
    } else if i == 16 {
        ("@std/serde/yaml"@, Capability::SerdeYaml)
    } else if i == 17 {
        ("@std/serde/json"@, Capability::Json)
    } else if i == 18 {
        ("@std/serde/hex"@, Capability::SerdeHex)
    } else if i == 19 {
        ("@std/json"@, Capability::Json)
    } else if i == 20 {
        ("@std/net"@, Capability::Net)
    } else if i == 21 {
        ("@std/net/http"@, Capability::NetHttp)
    } else if i == 22 {
        ("@std/net/http/server"@, Capability::NetHttpServer)
    } else if i == 23 {
        ("@std/net/request"@, Capability::NetRequest)
    } else if i == 24 {
        ("@std/crypt"@, Capability::Crypt)
    } else if i == 25 {
        ("@std/crypt/aes"@, Capability::CryptAes)
    } else if i == 26 {
        ("@std/crypt/rsa"@, Capability::CryptRsa)
    } else if i == 27 {
        ("@std/crypt/hash"@, Capability::CryptHash)
    } else if i == 28 {
        ("@std/crypt/password"@, Capability::CryptPassword)
    } else if i == 29 {
        ("@std/thread"@, Capability::Thread)
    } else if i == 30 {
        ("@std/testing"@, Capability::Testing)
    } else if i == 31 {
        ("@std/testing/try"@, Capability::TestingTry)
    } else if i == 32 {
        ("@std"@, Capability::Std)
    } else if i == 33 {
        ("@interop"@, Capability::Interop)
    } else {
        ("@interop/mlua"@, Capability::InteropMlua)
    }
}

/// The aliases and their factories, in the order in which they are searched.
pub open spec fn alias_table() -> Seq<(Seq<char>, Capability)> {
    Seq::new(ALIAS_COUNT as nat, |i: int| alias_row(i))
}

/// The factory of the first row of `table` whose alias is exactly `alias`.
pub open spec fn find_alias(table: Seq<(Seq<char>, Capability)>, alias: Seq<char>) -> Option<
    Capability,
>
    decreases table.len(),
{
    if table.len() == 0 {
        None
    } else if table[0].0 == alias {
        Some(table[0].1)
    } else {
        find_alias(table.drop_first(), alias)
    }
}

/// The factory registered under exactly `alias`, if there is one.
pub open spec fn registered(alias: Seq<char>) -> Option<Capability> {
    find_alias(alias_table(), alias)
}

/// An alias under one of the prefixes that are reserved for capabilities.
pub open spec fn is_reserved(raw: Seq<char>) -> bool {
    "@std"@.is_prefix_of(raw) || "@interop"@.is_prefix_of(raw)
}

/// Member `i` of the aggregate capability, under the field name by which a
/// script reaches it; past the end, the last member.
pub open spec fn aggregate_row(i: int) -> (Seq<char>, Capability) {
    if i == 0 {
        ("fs"@, Capability::Fs)
    } else if i == 1 {
        ("env"@, Capability::Env)
    } else if i == 2 {
        ("io"@, Capability::Io)
    } else if i == 3 {
        ("colors"@, Capability::Colors)
    } else if i == 4 {
        ("format"@, Capability::Format)
    } else if i == 5 {
        ("time"@, Capability::Time)
    } else if i == 6 {
        ("datetime"@, Capability::Datetime)
    } else if i == 7 {
        ("process"@, Capability::Process)
    } else if i == 8 {
        ("serde"@, Capability::Serde)
    } else if i == 9 {
        ("json"@, Capability::Json)
    } else if i == 10 {
        ("net"@, Capability::Net)
    } else if i == 11 {
        ("crypt"@, Capability::Crypt)
    } else if i == 12 {
        ("thread"@, Capability::Thread)
    } else {
        ("testing"@, Capability::Testing)
    }
}

/// The members of the aggregate capability.
pub open spec fn aggregate_members() -> Seq<(Seq<char>, Capability)> {
    Seq::new(AGGREGATE_COUNT as nat, |i: int| aggregate_row(i))
}

/// The views of a vector of descriptors.
pub open spec fn descriptor_views(v: Seq<CapabilityDescriptor>) -> Seq<(Seq<char>, Capability)> {
    Seq::new(v.len(), |i: int| v[i]@)
}

/// The shape of the value that `cap` builds.
pub fn shape(cap: Capability) -> (out: CapabilityShape)
    ensures
        out == shape_of(cap),
{
    match cap {
        Capability::IoClear
        | Capability::Format
        | Capability::NetRequest
        | Capability::TestingTry => CapabilityShape::Function,
        _ => CapabilityShape::Table,
    }
}

/// Row `i` of the registry; past the end, the last row.
pub fn descriptor(i: usize) -> (out: CapabilityDescriptor)
    ensures
        out@ == alias_row(i as int),
{
    if i == 0 {
        CapabilityDescriptor { alias: "@std/fs", factory: Capability::Fs }
    } else if i == 1 {
        CapabilityDescriptor { alias: "@std/fs/path", factory: Capability::FsPath }
    } else if i == 2 {
        CapabilityDescriptor { alias: "@std/env", factory: Capability::Env }
    } else if i == 3 {
        CapabilityDescriptor { alias: "@std/io", factory: Capability::Io }
    } else if i == 4 {
        CapabilityDescriptor { alias: "@std/io/input", factory: Capability::IoInput }
    } else if i == 5 {
        CapabilityDescriptor { alias: "@std/io/output", factory: Capability::IoOutput }
    } else if i == 6 {
        CapabilityDescriptor { alias: "@std/io/colors", factory: Capability::Colors }
    } else if i == 7 {
        CapabilityDescriptor { alias: "@std/io/clear", factory: Capability::IoClear }
    } else if i == 8 {
        CapabilityDescriptor { alias: "@std/colors", factory: Capability::Colors }
    } else if i == 9 {
        CapabilityDescriptor { alias: "@std/time", factory: Capability::Time }
    } else if i == 10 {
        CapabilityDescriptor { alias: "@std/time/datetime", factory: Capability::Datetime }
    } else if i == 11 {
        CapabilityDescriptor { alias: "@std/datetime", factory: Capability::Datetime }
    } else if i == 12 {
        CapabilityDescriptor { alias: "@std/process", factory: Capability::Process }
    } else if i == 13 {
        CapabilityDescriptor { alias: "@std/serde", factory: Capability::Serde }
    } else if i == 14 {
        CapabilityDescriptor { alias: "@std/serde/base64", factory: Capability::SerdeBase64 }
    } else if i == 15 {
        CapabilityDescriptor { alias: "@std/serde/toml", factory: Capability::SerdeToml }
    } else if i == 16 {
        CapabilityDescriptor { alias: "@std/serde/yaml", factory: Capability::SerdeYaml }
    } else if i == 17 {
        CapabilityDescriptor { alias: "@std/serde/json", factory: Capability::Json }
    } else if i == 18 {
        CapabilityDescriptor { alias: "@std/serde/hex", factory: Capability::SerdeHex }
    } else if i == 19 {
        CapabilityDescriptor { alias: "@std/json", factory: Capability::Json }
    } else if i == 20 {
        CapabilityDescriptor { alias: "@std/net", factory: Capability::Net }
    } else if i == 21 {
        CapabilityDescriptor { alias: "@std/net/http", factory: Capability::NetHttp }
    } else if i == 22 {
        CapabilityDescriptor { alias: "@std/net/http/server", factory: Capability::NetHttpServer }
    } else if i == 23 {
        CapabilityDescriptor { alias: "@std/net/request", factory: Capability::NetRequest }
    } else if i == 24 {
        CapabilityDescriptor { alias: "@std/crypt", factory: Capability::Crypt }
    } else if i == 25 {
        CapabilityDescriptor { alias: "@std/crypt/aes", factory: Capability::CryptAes }
    } else if i == 26 {
        CapabilityDescriptor { alias: "@std/crypt/rsa", factory: Capability::CryptRsa }
    } else if i == 27 {
        CapabilityDescriptor { alias: "@std/crypt/hash", factory: Capability::CryptHash }
    } else if i == 28 {
        CapabilityDescriptor { alias: "@std/crypt/password", factory: Capability::CryptPassword }
    } else if i == 29 {
        CapabilityDescriptor { alias: "@std/thread", factory: Capability::Thread }
    } else if i == 30 {
        CapabilityDescriptor { alias: "@std/testing", factory: Capability::Testing }
    } else if i == 31 {
        CapabilityDescriptor { alias: "@std/testing/try", factory: Capability::TestingTry }
    } else if i == 32 {
        CapabilityDescriptor { alias: "@std", factory: Capability::Std }
    } else if i == 33 {
        CapabilityDescriptor { alias: "@interop", factory: Capability::Interop }
    } else {
        CapabilityDescriptor { alias: "@interop/mlua", factory: Capability::InteropMlua }
    }
}

/// Member `i` of the aggregate capability; past the end, the last member.
pub fn aggregate_member(i: usize) -> (out: CapabilityDescriptor)
    ensures
        out@ == aggregate_row(i as int),
{
    if i == 0 {
        CapabilityDescriptor { alias: "fs", factory: Capability::Fs }
    } else if i == 1 {
        CapabilityDescriptor { alias: "env", factory: Capability::Env }
    } else if i == 2 {
        CapabilityDescriptor { alias: "io", factory: Capability::Io }
    } else if i == 3 {
        CapabilityDescriptor { alias: "colors", factory: Capability::Colors }
    } else if i == 4 {
        CapabilityDescriptor { alias: "format", factory: Capability::Format }
    } else if i == 5 {
        CapabilityDescriptor { alias: "time", factory: Capability::Time }
    } else if i == 6 {
        CapabilityDescriptor { alias: "datetime", factory: Capability::Datetime }
    } else if i == 7 {
        CapabilityDescriptor { alias: "process", factory: Capability::Process }
    } else if i == 8 {
        CapabilityDescriptor { alias: "serde", factory: Capability::Serde }
    } else if i == 9 {
        CapabilityDescriptor { alias: "json", factory: Capability::Json }
    } else if i == 10 {
        CapabilityDescriptor { alias: "net", factory: Capability::Net }
    } else if i == 11 {
        CapabilityDescriptor { alias: "crypt", factory: Capability::Crypt }
    } else if i == 12 {
        CapabilityDescriptor { alias: "thread", factory: Capability::Thread }
    } else {
        CapabilityDescriptor { alias: "testing", factory: Capability::Testing }
    }
}

/// The registry, one descriptor per alias.
pub fn descriptors() -> (out: Vec<CapabilityDescriptor>)
    ensures
        descriptor_views(out@) == alias_table(),
{
    let mut out: Vec<CapabilityDescriptor> = Vec::new();
    let mut i: usize = 0;
    while i < ALIAS_COUNT
        invariant
            i <= ALIAS_COUNT,
            out.len() == i,
            forall|k: int| 0 <= k < i ==> (#[trigger] out@[k])@ == alias_row(k),
        decreases ALIAS_COUNT - i,
    {
        out.push(descriptor(i));
        i += 1;
    }
    assert(descriptor_views(out@) =~= alias_table());
    out
}

/// The members of the aggregate capability.
pub fn aggregate() -> (out: Vec<CapabilityDescriptor>)
    ensures
        descriptor_views(out@) == aggregate_members(),
{
    let mut out: Vec<CapabilityDescriptor> = Vec::new();
    let mut i: usize = 0;
    while i < AGGREGATE_COUNT
        invariant
            i <= AGGREGATE_COUNT,
            out.len() == i,
            forall|k: int| 0 <= k < i ==> (#[trigger] out@[k])@ == aggregate_row(k),
        decreases AGGREGATE_COUNT - i,
    {
        out.push(aggregate_member(i));
        i += 1;
    }
    assert(descriptor_views(out@) =~= aggregate_members());
    out
}

/// Looks `alias` up in `table`: the first row with exactly that alias.
pub fn find(table: &Vec<CapabilityDescriptor>, alias: &str) -> (out: Option<Capability>)
    ensures
        out == find_alias(descriptor_views(table@), alias@),
{
    let wanted = to_chars(alias);
    let ghost rows = descriptor_views(table@);
    let mut i: usize = 0;
    assert(rows.skip(0) =~= rows);
    while i < table.len()
        invariant
            i <= table.len(),
            wanted@ == alias@,
            rows == descriptor_views(table@),
            find_alias(rows, alias@) == find_alias(rows.skip(i as int), alias@),
        decreases table.len() - i,
    {
        let row = &table[i];
        let have = to_chars(row.alias);
        proof {
            let rest = rows.skip(i as int);
            assert(rest[0] == rows[i as int]);
            assert(rest.drop_first() =~= rows.skip(i + 1));
        }
        if chars_eq(&have, &wanted) {
            return Some(row.factory);
        }
        i += 1;
    }
    None
}

/// The factory registered under exactly `alias`, if there is one.
pub fn lookup(alias: &str) -> (out: Option<Capability>)
    ensures
        out == registered(alias@),
{
    let table = descriptors();
    find(&table, alias)
}

/// Whether `raw` lies under a prefix reserved for capabilities.
pub fn reserved(raw: &str) -> (yes: bool)
    ensures
        yes == is_reserved(raw@),
{
    let chars = to_chars(raw);
    let std_prefix = to_chars("@std");
    let interop_prefix = to_chars("@interop");
    chars_start_with(&chars, &std_prefix) || chars_start_with(&chars, &interop_prefix)
}

/// Two aliases that differ in length or in one of the characters that follow
/// the reserved prefix.
pub open spec fn differ_early(a: Seq<char>, b: Seq<char>) -> bool {
    a.len() != b.len() || a[5] != b[5] || a[6] != b[6] || a[7] != b[7] || a[8] != b[8] || a[9]
        != b[9] || a[10] != b[10] || a[11] != b[11] || a[12] != b[12]
}

/// A row whose alias no earlier row has is the row that a search finds.
pub proof fn lemma_find_alias_at(table: Seq<(Seq<char>, Capability)>, alias: Seq<char>, j: int)
    requires
        0 <= j < table.len(),
        table[j].0 == alias,
        forall|k: int| 0 <= k < j ==> (#[trigger] table[k]).0 != alias,
    ensures
        find_alias(table, alias) == Some(table[j].1),
    decreases j,
{
    if j > 0 {
        let rest = table.drop_first();
        assert(rest[j - 1] == table[j]);
        assert forall|k: int| 0 <= k < j - 1 implies (#[trigger] rest[k]).0 != alias by {
            assert(rest[k] == table[k + 1]);
        }
        lemma_find_alias_at(rest, alias, j - 1);
    }
}

/// A member of the aggregate is built by the factory that is registered under
/// its own alias: what a script reaches as a field of the aggregate is made
/// as what it gets by requiring `@std/` followed by the field's name. The
/// formatter has no alias of its own.
pub proof fn lemma_aggregate_matches_registry(i: int)
    requires
        0 <= i < aggregate_members().len(),
        aggregate_members()[i].1 != Capability::Format,
    ensures
        registered("@std/"@ + aggregate_members()[i].0) == Some(aggregate_members()[i].1),
{
    reveal_strlit("@std/");
    reveal_strlit("fs");
    reveal_strlit("env");
    reveal_strlit("io");
    reveal_strlit("colors");
    reveal_strlit("format");
    reveal_strlit("time");
    reveal_strlit("datetime");
    reveal_strlit("process");
    reveal_strlit("serde");
    reveal_strlit("json");
    reveal_strlit("net");
    reveal_strlit("crypt");
    reveal_strlit("thread");
    reveal_strlit("testing");
    reveal_strlit("@std/fs");
    reveal_strlit("@std/fs/path");
    reveal_strlit("@std/env");
    reveal_strlit("@std/io");
    reveal_strlit("@std/io/input");
    reveal_strlit("@std/io/output");
    reveal_strlit("@std/io/colors");
    reveal_strlit("@std/io/clear");
    reveal_strlit("@std/colors");
    reveal_strlit("@std/time");
    reveal_strlit("@std/time/datetime");
    reveal_strlit("@std/datetime");
    reveal_strlit("@std/process");
    reveal_strlit("@std/serde");
    reveal_strlit("@std/serde/base64");
    reveal_strlit("@std/serde/toml");
    reveal_strlit("@std/serde/yaml");
    reveal_strlit("@std/serde/json");
    reveal_strlit("@std/serde/hex");
    reveal_strlit("@std/json");
    reveal_strlit("@std/net");
    reveal_strlit("@std/net/http");
    reveal_strlit("@std/net/http/server");
    reveal_strlit("@std/net/request");
    reveal_strlit("@std/crypt");
    reveal_strlit("@std/crypt/aes");
    reveal_strlit("@std/crypt/rsa");
    reveal_strlit("@std/crypt/hash");
    reveal_strlit("@std/crypt/password");
    reveal_strlit("@std/thread");
    reveal_strlit("@std/testing");
    let name = aggregate_members()[i].0;
    let alias = "@std/"@ + name;
    if i == 0 {
        assert(alias =~= "@std/fs"@);
        assert forall|k: int| 0 <= k < 0 implies differ_early(
            (#[trigger] alias_table()[k]).0,
            alias,
        ) by {}
        lemma_find_alias_at(alias_table(), alias, 0);
    } else if i == 1 {
        assert(alias =~= "@std/env"@);
        assert forall|k: int| 0 <= k < 2 implies differ_early(
            (#[trigger] alias_table()[k]).0,
            alias,
        ) by {}
        lemma_find_alias_at(alias_table(), alias, 2);
    } else if i == 2 {
        assert(alias =~= "@std/io"@);
        assert forall|k: int| 0 <= k < 3 implies differ_early(
            (#[trigger] alias_table()[k]).0,
            alias,
        ) by {}
        lemma_find_alias_at(alias_table(), alias, 3);
    } else if i == 3 {
        assert(alias =~= "@std/colors"@);
        assert forall|k: int| 0 <= k < 8 implies differ_early(
            (#[trigger] alias_table()[k]).0,
            alias,
        ) by {}
        lemma_find_alias_at(alias_table(), alias, 8);
    } else if i == 5 {
        assert(alias =~= "@std/time"@);
        assert forall|k: int| 0 <= k < 9 implies differ_early(
            (#[trigger] alias_table()[k]).0,
            alias,
        ) by {}
        lemma_find_alias_at(alias_table(), alias, 9);
    } else if i == 6 {
        assert(alias =~= "@std/datetime"@);
        assert forall|k: int| 0 <= k < 11 implies differ_early(
            (#[trigger] alias_table()[k]).0,
            alias,
        ) by {}
        lemma_find_alias_at(alias_table(), alias, 11);
    } else if i == 7 {
        assert(alias =~= "@std/process"@);
        assert forall|k: int| 0 <= k < 12 implies differ_early(
            (#[trigger] alias_table()[k]).0,
            alias,
        ) by {}
        lemma_find_alias_at(alias_table(), alias, 12);
    } else if i == 8 {
        assert(alias =~= "@std/serde"@);
        assert forall|k: int| 0 <= k < 13 implies differ_early(
            (#[trigger] alias_table()[k]).0,
            alias,
        ) by {}
        lemma_find_alias_at(alias_table(), alias, 13);
    } else if i == 9 {
        assert(alias =~= "@std/json"@);
        assert forall|k: int| 0 <= k < 19 implies differ_early(
            (#[trigger] alias_table()[k]).0,
            alias,
        ) by {}
        lemma_find_alias_at(alias_table(), alias, 19);
    } else if i == 10 {
        assert(alias =~= "@std/net"@);
        assert forall|k: int| 0 <= k < 20 implies differ_early(
            (#[trigger] alias_table()[k]).0,
            alias,
        ) by {}
        lemma_find_alias_at(alias_table(), alias, 20);
    } else if i == 11 {
        assert(alias =~= "@std/crypt"@);
        assert forall|k: int| 0 <= k < 24 implies differ_early(
            (#[trigger] alias_table()[k]).0,
            alias,
        ) by {}
        lemma_find_alias_at(alias_table(), alias, 24);
    } else if i == 12 {
        assert(alias =~= "@std/thread"@);
        assert forall|k: int| 0 <= k < 29 implies differ_early(
            (#[trigger] alias_table()[k]).0,
            alias,
        ) by {}
        lemma_find_alias_at(alias_table(), alias, 29);
    } else if i == 13 {
        assert(alias =~= "@std/testing"@);
        assert forall|k: int| 0 <= k < 30 implies differ_early(
            (#[trigger] alias_table()[k]).0,
            alias,
        ) by {}
        lemma_find_alias_at(alias_table(), alias, 30);
    }
}

} // verus!
