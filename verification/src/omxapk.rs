use vstd::prelude::*;
use vstd::slice::slice_subrange;
use vstd::string::StringSliceAdditionalSpecFns;
use vstd::utf8::valid_utf8;

verus! {

/// An installable application: its number, display name, package id and code.
#[derive(Clone, Copy)]
pub struct OmxApp<'a> {
    pub num_id: u8,
    pub name: &'a str,
    pub pkg_id: &'a str,
    pub payload: &'a [u8],
}

/// How many applications come with the system.
pub const APP_COUNT: usize = 3;

/// The magic bytes `OMX!` that open a package.
pub open spec fn package_magic() -> Seq<u8> {
    seq![79u8, 77u8, 88u8, 33u8]
}

/// `data` is a package: a full header with the magic, and room for the name
/// and package id whose lengths the header gives.
pub open spec fn is_package(data: Seq<u8>) -> bool {
    &&& data.len() >= 7
    &&& data.subrange(0, 4) == package_magic()
    &&& data.len() >= 7 + data[5] + data[6]
}

/// The bytes of the name field of a package.
pub open spec fn name_field(data: Seq<u8>) -> Seq<u8> {
    data.subrange(7, 7 + data[5])
}

/// The bytes of the package-id field of a package.
pub open spec fn pkg_id_field(data: Seq<u8>) -> Seq<u8> {
    data.subrange(7 + data[5], 7 + data[5] + data[6])
}

/// The bytes after the package-id field.
pub open spec fn payload_field(data: Seq<u8>) -> Seq<u8> {
    data.subrange(7 + data[5] + data[6], data.len() as int)
}

/// `field` when it is valid UTF-8, else `fallback`.
pub open spec fn text_or(field: Seq<u8>, fallback: Seq<u8>) -> Seq<u8> {
    if valid_utf8(field) {
        field
    } else {
        fallback
    }
}

/// What a package holds, read as `parse_package` reads it.
pub open spec fn parsed_as(app: OmxApp, data: Seq<u8>) -> bool {
    &&& app.num_id == data[4]
    &&& app.name.spec_bytes() == text_or(name_field(data), "Unknown".spec_bytes())
    &&& app.pkg_id.spec_bytes() == text_or(pkg_id_field(data), "com.unknown".spec_bytes())
    &&& app.payload@ == payload_field(data)
}

/// The bytes of a package with the given fields.
pub open spec fn package_bytes(num_id: u8, name: Seq<u8>, pkg_id: Seq<u8>, payload: Seq<u8>) -> Seq<u8> {
    package_magic() + seq![num_id, name.len() as u8, pkg_id.len() as u8] + name + pkg_id + payload
}

/// `core::str::from_utf8`: the bytes as a string slice when they are valid
/// UTF-8, and `None` otherwise. Its documentation states both; the string
/// slice it returns is made of the very bytes it was given.
#[verifier::external_body]
fn str_from_utf8<'a>(v: &'a [u8]) -> (r: Option<&'a str>)
    ensures
        r is Some <==> valid_utf8(v@),
        r matches Some(s) ==> s.spec_bytes() == v@,
{
    match core::str::from_utf8(v) {
        Ok(s) => Some(s),
        Err(_) => None,
    }
}

/// The applications that come with the system: the terminal, the file
/// explorer and the settings, numbered 1 to 3, with no code.
pub fn get_default_apps() -> (apps: [OmxApp<'static>; APP_COUNT])
    ensures
        apps@.len() == 3,
        apps@[0].num_id == 1,
        apps@[0].name@ == "Terminal"@,
        apps@[0].pkg_id@ == "com.omnix.terminal"@,
        apps@[0].payload@.len() == 0,
        apps@[1].num_id == 2,
        apps@[1].name@ == "Explorer"@,
        apps@[1].pkg_id@ == "com.omnix.explorer"@,
        apps@[1].payload@.len() == 0,
        apps@[2].num_id == 3,
        apps@[2].name@ == "Settings"@,
        apps@[2].pkg_id@ == "com.omnix.settings"@,
        apps@[2].payload@.len() == 0,
{
    let none: &'static [u8] = &[];
    [
        OmxApp { num_id: 1, name: "Terminal", pkg_id: "com.omnix.terminal", payload: none },
        OmxApp { num_id: 2, name: "Explorer", pkg_id: "com.omnix.explorer", payload: none },
        OmxApp { num_id: 3, name: "Settings", pkg_id: "com.omnix.settings", payload: none },
    ]
}

/// Reads a package: the magic `OMX!`, the id, the two field lengths, the name,
/// the package id and the code. A field that is not valid UTF-8 reads as
/// "Unknown" (the name) or "com.unknown" (the package id). A buffer that is
/// not a package gives `None`.
pub fn parse_package(data: &[u8]) -> (r: Option<OmxApp<'_>>)
    ensures
        r is Some <==> is_package(data@),
        r matches Some(app) ==> parsed_as(app, data@),
{
    if data.len() < 7 {
        return None;
    }
    if !(data[0] == 79 && data[1] == 77 && data[2] == 88 && data[3] == 33) {
        assert(data@.subrange(0, 4) != package_magic()) by {
            if data@.subrange(0, 4) == package_magic() {
                assert(data@.subrange(0, 4)[0] == data@[0]);
                assert(data@.subrange(0, 4)[1] == data@[1]);
                assert(data@.subrange(0, 4)[2] == data@[2]);
                assert(data@.subrange(0, 4)[3] == data@[3]);
            }
        }
        return None;
    }
    assert(data@.subrange(0, 4) =~= package_magic());
    let num_id = data[4];
    let name_len = data[5] as usize;
    let pkg_id_len = data[6] as usize;
    let mut offset: usize = 7;
    if data.len() < offset + name_len + pkg_id_len {
        return None;
    }
    let name = match str_from_utf8(slice_subrange(data, offset, offset + name_len)) {
        Some(s) => s,
        None => "Unknown",
    };
    offset = offset + name_len;
    let pkg_id = match str_from_utf8(slice_subrange(data, offset, offset + pkg_id_len)) {
        Some(s) => s,
        None => "com.unknown",
    };
    offset = offset + pkg_id_len;
    Some(OmxApp { num_id, name, pkg_id, payload: slice_subrange(data, offset, data.len()) })
}

/// A package built from an id, a name and a package id of valid UTF-8 of at
/// most 255 bytes each, and any code, reads back as exactly those fields.
pub proof fn lemma_parse_package_bytes(num_id: u8, name: Seq<u8>, pkg_id: Seq<u8>, payload: Seq<u8>)
    requires
        name.len() <= 255,
        pkg_id.len() <= 255,
        valid_utf8(name),
        valid_utf8(pkg_id),
    ensures
        is_package(package_bytes(num_id, name, pkg_id, payload)),
        package_bytes(num_id, name, pkg_id, payload)[4] == num_id,
        name_field(package_bytes(num_id, name, pkg_id, payload)) == name,
        pkg_id_field(package_bytes(num_id, name, pkg_id, payload)) == pkg_id,
        payload_field(package_bytes(num_id, name, pkg_id, payload)) == payload,
        text_or(name_field(package_bytes(num_id, name, pkg_id, payload)), "Unknown".spec_bytes()) == name,
        text_or(pkg_id_field(package_bytes(num_id, name, pkg_id, payload)), "com.unknown".spec_bytes()) == pkg_id,
{
    let d = package_bytes(num_id, name, pkg_id, payload);
    let nl = name.len() as u8;
    let pl = pkg_id.len() as u8;
    assert(d[5] == nl);
    assert(d[6] == pl);
    assert(nl == name.len());
    assert(pl == pkg_id.len());
    assert(d.subrange(0, 4) =~= package_magic());
    assert(name_field(d) =~= name);
    assert(pkg_id_field(d) =~= pkg_id);
    assert(payload_field(d) =~= payload);
}

} // verus!
