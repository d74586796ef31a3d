//! Staging of standalone games: which profiles need a private copy, what preparing
//! one does with what it finds, the marker that says a copy is current, and the
//! checks and patches applied to it: relative target paths and the PE32 header of
//! Windows binaries (reading the machine type and setting the large-address-aware
//! flag). Files are read, copied and written by the caller.
use vstd::prelude::*;
use crate::error::{PortCellarError, Result};
use crate::games::{GameBinaryPatch, GameBinaryPatchKind, GameProfile, GameRuntimeArtifact, SteamIntegration};
use crate::paths::{is_safe_relative_path, relative_path_ok};
use crate::text::{concat, concat3, join_texts, joined_with};

verus! {

/// Checks that `value` is a non-empty relative path that never climbs with `..`.
pub fn validate_relative_path(value: &str, field: &str) -> (r: Result<()>)
    ensures
        r is Ok == relative_path_ok(value@),
        r matches Err(e) ==> e.text() == field@ + " must be a non-empty relative path without '..'"@,
{
    if !is_safe_relative_path(value) {
        return Err(PortCellarError::message(concat(field, " must be a non-empty relative path without '..'")));
    }
    Ok(())
}

/// Whether `b` holds `n` bytes from `from` on.
pub open spec fn holds(b: Seq<u8>, from: int, n: int) -> bool {
    0 <= from && from + n <= b.len()
}

/// The little-endian 32-bit number at `at`.
pub open spec fn le_u32_at(b: Seq<u8>, at: int) -> int {
    b[at] + 256 * b[at + 1] + 65536 * b[at + 2] + 16777216 * b[at + 3]
}

/// Where the PE header starts, as the DOS header's `e_lfanew` field gives it.
pub open spec fn pe_offset(b: Seq<u8>) -> int {
    le_u32_at(b, 0x3c)
}

/// Whether the PE signature `PE\0\0` stands at `o`.
pub open spec fn pe_signature_at(b: Seq<u8>, o: int) -> bool {
    holds(b, o, 4) && b[o] == 0x50 && b[o + 1] == 0x45 && b[o + 2] == 0 && b[o + 3] == 0
}

/// Whether the machine field after the signature at `o` names i386.
pub open spec fn machine_i386_at(b: Seq<u8>, o: int) -> bool {
    holds(b, o + 4, 2) && b[o + 4] == 0x4c && b[o + 5] == 0x01
}

/// Whether the optional header after the signature at `o` is PE32.
pub open spec fn optional_pe32_at(b: Seq<u8>, o: int) -> bool {
    holds(b, o + 24, 2) && b[o + 24] == 0x0b && b[o + 25] == 0x01
}

/// Where the characteristics field of the COFF header after the signature at `o` is.
pub open spec fn characteristics_at(o: int) -> int {
    o + 4 + 18
}

fn byte_is(b: &Vec<u8>, at: u64, value: u8) -> (r: bool)
    ensures r == (at < b@.len() && b@[at as int] == value),
{
    if at < b.len() as u64 {
        b[at as usize] == value
    } else {
        false
    }
}

fn read_pe_offset(b: &Vec<u8>) -> (r: u64)
    requires b@.len() >= 0x40,
    ensures r == pe_offset(b@),
{
    (b[0x3c] as u64) + 256 * (b[0x3d] as u64) + 65536 * (b[0x3e] as u64) + 16777216 * (b[0x3f] as u64)
}

/// Whether the image is a PE32 i386 binary: PE signature, i386 machine and PE32
/// optional header magic. An image shorter than a DOS header is an error.
pub fn is_pe32_i386(bytes: &Vec<u8>, path: &str) -> (r: Result<bool>)
    ensures
        match r {
            Ok(v) => bytes@.len() >= 0x40 && v == (pe_signature_at(bytes@, pe_offset(bytes@))
                && machine_i386_at(bytes@, pe_offset(bytes@)) && optional_pe32_at(bytes@, pe_offset(bytes@))),
            Err(e) => bytes@.len() < 0x40 && e.text() == "runtime artifact is too small to be a PE image: "@ + path@,
        },
{
    if bytes.len() < 0x40 {
        return Err(PortCellarError::message(concat("runtime artifact is too small to be a PE image: ", path)));
    }
    let o = read_pe_offset(bytes);
    let signature = byte_is(bytes, o + 3, 0) && byte_is(bytes, o, 0x50) && byte_is(bytes, o + 1, 0x45) && byte_is(bytes, o + 2, 0);
    let machine = byte_is(bytes, o + 5, 0x01) && byte_is(bytes, o + 4, 0x4c);
    let optional = byte_is(bytes, o + 25, 0x01) && byte_is(bytes, o + 24, 0x0b);
    Ok(signature && machine && optional)
}

/// The verdict on patching an image to be large-address-aware: the offset of the
/// characteristics field, or the error message.
pub open spec fn laa_target(b: Seq<u8>, path: Seq<char>) -> core::result::Result<int, Seq<char>> {
    let o = pe_offset(b);
    if b.len() < 0x40 {
        Err("binary is too small for PE header: "@ + path)
    } else if !pe_signature_at(b, o) {
        Err("binary is not a PE image: "@ + path)
    } else if !holds(b, o + 4, 2) {
        Err("PE machine field is missing: "@ + path)
    } else if !holds(b, o + 24, 2) {
        Err("PE optional header is missing: "@ + path)
    } else if !machine_i386_at(b, o) || !optional_pe32_at(b, o) {
        Err("LAA patch requires a PE32 i386 image: "@ + path)
    } else if !holds(b, characteristics_at(o), 2) {
        Err("PE characteristics are missing: "@ + path)
    } else {
        Ok(characteristics_at(o))
    }
}

/// Sets the large-address-aware flag (bit `0x20` of the characteristics) of a PE32
/// i386 image, and says whether the bytes changed.
pub fn set_large_address_aware(bytes: &mut Vec<u8>, path: &str) -> (r: Result<bool>)
    ensures
        match r {
            Ok(changed) => laa_target(old(bytes)@, path@) matches Ok(c)
                && final(bytes)@ == old(bytes)@.update(c, old(bytes)@[c] | 0x20)
                && changed == (old(bytes)@[c] & 0x20 == 0),
            Err(e) => laa_target(old(bytes)@, path@) == Err::<int, Seq<char>>(e.text())
                && final(bytes)@ == old(bytes)@,
        },
{
    if bytes.len() < 0x40 {
        return Err(PortCellarError::message(concat("binary is too small for PE header: ", path)));
    }
    let o = read_pe_offset(bytes);
    let signature = byte_is(bytes, o + 3, 0) && byte_is(bytes, o, 0x50) && byte_is(bytes, o + 1, 0x45) && byte_is(bytes, o + 2, 0);
    if !signature {
        return Err(PortCellarError::message(concat("binary is not a PE image: ", path)));
    }
    let len = bytes.len() as u64;
    if o + 6 > len {
        return Err(PortCellarError::message(concat("PE machine field is missing: ", path)));
    }
    if o + 26 > len {
        return Err(PortCellarError::message(concat("PE optional header is missing: ", path)));
    }
    let machine = byte_is(bytes, o + 5, 0x01) && byte_is(bytes, o + 4, 0x4c);
    let optional = byte_is(bytes, o + 25, 0x01) && byte_is(bytes, o + 24, 0x0b);
    if !machine || !optional {
        return Err(PortCellarError::message(concat("LAA patch requires a PE32 i386 image: ", path)));
    }
    let c = o + 22;
    if c + 2 > len {
        return Err(PortCellarError::message(concat("PE characteristics are missing: ", path)));
    }
    let at = c as usize;
    let old_byte = bytes[at];
    let new_byte = old_byte | 0x20;
    assert((old_byte | 0x20u8) != old_byte <==> old_byte & 0x20u8 == 0) by (bit_vector);
    bytes.set(at, new_byte);
    Ok(new_byte != old_byte)
}

/// The verdict on reading the large-address-aware flag: the offset of the
/// characteristics field, or the error message.
pub open spec fn laa_flag_at(b: Seq<u8>, path: Seq<char>) -> core::result::Result<int, Seq<char>> {
    if b.len() < 0x40 {
        Err("binary is too small for PE header: "@ + path)
    } else if !holds(b, characteristics_at(pe_offset(b)), 2) {
        Err("PE characteristics are missing: "@ + path)
    } else {
        Ok(characteristics_at(pe_offset(b)))
    }
}

/// Whether the image's large-address-aware flag is set.
pub fn large_address_aware_enabled(bytes: &Vec<u8>, path: &str) -> (r: Result<bool>)
    ensures
        match r {
            Ok(v) => laa_flag_at(bytes@, path@) matches Ok(c) && v == (bytes@[c] & 0x20 != 0),
            Err(e) => laa_flag_at(bytes@, path@) == Err::<int, Seq<char>>(e.text()),
        },
{
    if bytes.len() < 0x40 {
        return Err(PortCellarError::message(concat("binary is too small for PE header: ", path)));
    }
    let o = read_pe_offset(bytes);
    let c = o + 22;
    if c + 2 > bytes.len() as u64 {
        return Err(PortCellarError::message(concat("PE characteristics are missing: ", path)));
    }
    Ok(bytes[c as usize] & 0x20 != 0)
}

/// After a successful large-address-aware patch, the flag reads as set, provided the
/// characteristics field does not overlap the DOS header's PE offset field (which the
/// patch would otherwise move).
pub proof fn lemma_patch_sets_flag(before: Seq<u8>, after: Seq<u8>, path: Seq<char>)
    requires
        laa_target(before, path) matches Ok(c) && after == before.update(c, before[c] | 0x20)
            && (c < 0x3c || c >= 0x40),
    ensures
        laa_flag_at(after, path) matches Ok(c) && after[c] & 0x20 != 0,
{
    let c = laa_target(before, path)->Ok_0;
    assert(after.len() == before.len());
    assert forall|k: int| 0x3c <= k < 0x40 implies after[k] == before[k] by {
        assert(k != c);
    }
    assert(pe_offset(after) == pe_offset(before));
    let x = before[c];
    assert((x | 0x20u8) & 0x20u8 != 0) by (bit_vector);
}

/// Patching an image that already has the flag changes nothing.
pub proof fn lemma_patch_idempotent(before: Seq<u8>, path: Seq<char>)
    requires
        laa_target(before, path) matches Ok(c) && before[c] & 0x20 != 0,
    ensures
        laa_target(before, path) matches Ok(c) && before.update(c, before[c] | 0x20) == before,
{
    let c = laa_target(before, path)->Ok_0;
    let x = before[c];
    assert(x & 0x20u8 != 0 ==> x | 0x20u8 == x) by (bit_vector);
    assert(before.update(c, before[c] | 0x20) =~= before);
}

// ---------------------------------------------------------------- fingerprints

/// The FNV-1a offset basis that a staged tree's fingerprint starts from.
pub const FINGERPRINT_BASIS: u64 = 0xcbf29ce484222325;

/// The FNV-1a prime.
pub const FINGERPRINT_PRIME: u64 = 0x100000001b3;

/// One FNV-1a step: the byte goes into the low bits, then the hash is multiplied by
/// the prime modulo 2^64.
pub open spec fn fingerprint_step(h: u64, b: u8) -> u64 {
    (((h ^ (b as u64)) as nat * FINGERPRINT_PRIME as nat) % 0x1_0000_0000_0000_0000nat) as u64
}

/// The hash `h` extended by each byte of `bytes`, first to last.
pub open spec fn fingerprint_of(h: u64, bytes: Seq<u8>) -> u64
    decreases bytes.len(),
{
    if bytes.len() == 0 {
        h
    } else {
        fingerprint_of(fingerprint_step(h, bytes[0]), bytes.drop_first())
    }
}

/// Extends the hash `hash` by `bytes`.
pub fn fingerprint_bytes(hash: u64, bytes: &[u8]) -> (r: u64)
    ensures r == fingerprint_of(hash, bytes@),
{
    let mut h = hash;
    let mut i: usize = 0;
    assert(bytes@.skip(0) =~= bytes@);
    while i < bytes.len()
        invariant
            i <= bytes.len(),
            fingerprint_of(h, bytes@.skip(i as int)) == fingerprint_of(hash, bytes@),
        decreases bytes.len() - i,
    {
        let b = bytes[i];
        assert(bytes@.skip(i as int).drop_first() =~= bytes@.skip(i as int + 1));
        h = (h ^ (b as u64)).wrapping_mul(FINGERPRINT_PRIME);
        i = i + 1;
    }
    assert(bytes@.skip(i as int) =~= Seq::<u8>::empty());
    h
}

/// The lowercase hexadecimal digit of `d` (below 16).
pub open spec fn hex_digit(d: nat) -> char {
    if d < 10 { (('0' as nat) + d) as char } else { (('a' as nat) + d - 10) as char }
}

/// The last `width` hexadecimal digits of `n`, most significant first.
pub open spec fn hex_text(n: nat, width: nat) -> Seq<char>
    decreases width,
{
    if width == 0 {
        Seq::empty()
    } else {
        hex_text(n / 16, (width - 1) as nat).push(hex_digit(n % 16))
    }
}

fn hex_digit_char(d: u64) -> (c: char)
    requires d < 16,
    ensures c == hex_digit(d as nat),
{
    if d < 10 {
        (48u8 + d as u8) as char
    } else {
        (87u8 + d as u8) as char
    }
}

/// The last `width` hexadecimal digits of `n`, padded with zeros.
pub fn hex_padded(n: u64, width: u32) -> (r: String)
    ensures r@ == hex_text(n as nat, width as nat),
    decreases width,
{
    if width == 0 {
        return String::new();
    }
    let mut s = hex_padded(n / 16, width - 1);
    crate::text::push_char(&mut s, hex_digit_char(n % 16));
    s
}

/// A fingerprint as the marker of a stage writes it: 16 lowercase hexadecimal digits.
pub fn fingerprint_text(hash: u64) -> (r: String)
    ensures r@ == hex_text(hash as nat, 16),
{
    hex_padded(hash, 16)
}


// ---------------------------------------------------------------- the stage and its marker

/// Whether a profile runs from a private staged copy: a standalone game that
/// installs runtime artifacts.
pub open spec fn stage_needed<P: GameProfile>(profile: &P) -> bool {
    profile.spec_steam_integration() == SteamIntegration::Standalone && profile.spec_runtime_artifacts().len() > 0
}

/// Whether `profile` runs from a private staged copy.
pub fn needs_stage<P: GameProfile>(profile: &P) -> (r: bool)
    ensures r == stage_needed(profile),
{
    profile.steam_integration() == SteamIntegration::Standalone && profile.runtime_artifacts().len() > 0
}

/// What preparing a stage does with what it finds.
#[derive(Debug, Clone, Copy, PartialEq, Eq, Structural)]
pub enum StageAction {
    /// The copy is current: run from it.
    Reuse,
    /// A copy exists that is not current, or a refresh was asked for: keep it and
    /// stop, since it may hold saves.
    Refuse,
    /// No copy exists: build one aside and move it into place.
    Build,
}

/// The action for a stage that is `ready` (current) or not, with a refresh asked
/// for or not, whose game directory `exists` or not.
pub open spec fn stage_action_of(ready: bool, refresh: bool, exists: bool) -> StageAction {
    if ready && !refresh {
        StageAction::Reuse
    } else if exists {
        StageAction::Refuse
    } else {
        StageAction::Build
    }
}

/// Decides what preparing a stage does.
pub fn stage_action(ready: bool, refresh: bool, exists: bool) -> (r: StageAction)
    ensures r == stage_action_of(ready, refresh, exists),
{
    if ready && !refresh {
        StageAction::Reuse
    } else if exists {
        StageAction::Refuse
    } else {
        StageAction::Build
    }
}

/// An existing copy is never replaced: where the game directory exists, preparing
/// the stage reuses it or refuses, and only builds where nothing is there.
pub proof fn lemma_existing_stage_kept(ready: bool, refresh: bool, exists: bool)
    ensures
        exists ==> stage_action_of(ready, refresh, exists) != StageAction::Build,
        stage_action_of(ready, refresh, exists) == StageAction::Build ==> !exists,
        (ready && !refresh) ==> stage_action_of(ready, refresh, exists) == StageAction::Reuse,
{
}

/// The fingerprint of a tree from `h` on: each file's relative path, then its
/// bytes, in the order given.
pub open spec fn tree_fingerprint_of(h: u64, entries: Seq<(Seq<u8>, Seq<u8>)>) -> u64
    decreases entries.len(),
{
    if entries.len() == 0 {
        h
    } else {
        let e = entries.last();
        fingerprint_of(fingerprint_of(tree_fingerprint_of(h, entries.drop_last()), e.0), e.1)
    }
}

/// The files of a tree as byte sequences: relative path and content.
pub open spec fn byte_entries(entries: Seq<(Vec<u8>, Vec<u8>)>) -> Seq<(Seq<u8>, Seq<u8>)> {
    entries.map_values(|e: (Vec<u8>, Vec<u8>)| (e.0@, e.1@))
}

/// The fingerprint of a tree whose files, in order, have these relative paths and
/// contents.
pub fn tree_fingerprint(entries: &Vec<(Vec<u8>, Vec<u8>)>) -> (r: u64)
    ensures r == tree_fingerprint_of(FINGERPRINT_BASIS, byte_entries(entries@)),
{
    let ghost all = byte_entries(entries@);
    let mut h = FINGERPRINT_BASIS;
    let mut i: usize = 0;
    assert(all.take(0) =~= Seq::<(Seq<u8>, Seq<u8>)>::empty());
    while i < entries.len()
        invariant
            i <= entries.len(),
            all == byte_entries(entries@),
            h == tree_fingerprint_of(FINGERPRINT_BASIS, all.take(i as int)),
        decreases entries.len() - i,
    {
        let entry = &entries[i];
        assert(all.take(i as int + 1).drop_last() =~= all.take(i as int));
        assert(all.take(i as int + 1).last() == (entry.0@, entry.1@));
        h = fingerprint_bytes(h, entry.0.as_slice());
        h = fingerprint_bytes(h, entry.1.as_slice());
        i = i + 1;
    }
    assert(all.take(i as int) =~= all);
    h
}

/// How a patch kind is named in a stage marker.
pub open spec fn patch_kind_name(k: GameBinaryPatchKind) -> Seq<char> {
    match k {
        GameBinaryPatchKind::LargeAddressAware => "LargeAddressAware"@,
    }
}

/// An artifact's marker line: `id:source_path:target_path:fingerprint`.
pub open spec fn artifact_marker_line(a: GameRuntimeArtifact, fingerprint: u64) -> Seq<char> {
    a.id@ + ":"@ + a.source_path@ + ":"@ + a.target_path@ + ":"@ + hex_text(fingerprint as nat, 16)
}

/// A binary patch's marker line: `binary-patch:kind:target_path`.
pub open spec fn patch_marker_line(p: GameBinaryPatch) -> Seq<char> {
    "binary-patch:"@ + patch_kind_name(p.kind) + ":"@ + p.target_path@
}

/// The marker a current stage holds: the profile's identity, the source directory
/// and its fingerprint, one line per artifact (with the fingerprint of its source
/// file) and one per binary patch, each field ended by a newline.
pub open spec fn stage_marker_of(
    app_id: Seq<char>,
    version: Seq<char>,
    exe: Seq<char>,
    source: Seq<char>,
    source_fingerprint: u64,
    artifacts: Seq<GameRuntimeArtifact>,
    fingerprints: Seq<u64>,
    patches: Seq<GameBinaryPatch>,
) -> Seq<char> {
    "app_id="@ + app_id + "\nprofile_version="@ + version + "\nwindows_exe="@ + exe + "\nsource="@ + source
        + "\nsource_fingerprint="@ + hex_text(source_fingerprint as nat, 16) + "\n"@
        + joined_with(Seq::new(artifacts.len(), |i: int| artifact_marker_line(artifacts[i], fingerprints[i])), "\n"@)
        + "\n"@ + joined_with(patches.map_values(|p: GameBinaryPatch| patch_marker_line(p)), "\n"@) + "\n"@
}

fn patch_kind_text(k: GameBinaryPatchKind) -> (r: &'static str)
    ensures r@ == patch_kind_name(k),
{
    match k {
        GameBinaryPatchKind::LargeAddressAware => "LargeAddressAware",
    }
}

fn artifact_lines(artifacts: &Vec<GameRuntimeArtifact>, fingerprints: &Vec<u64>) -> (r: Vec<String>)
    requires fingerprints.len() == artifacts.len(),
    ensures r.deep_view() == Seq::new(artifacts@.len(), |i: int| artifact_marker_line(artifacts@[i], fingerprints@[i])),
{
    let mut out: Vec<String> = Vec::new();
    let mut i: usize = 0;
    while i < artifacts.len()
        invariant
            i <= artifacts.len(),
            fingerprints.len() == artifacts.len(),
            out.deep_view() =~= Seq::new(i as nat, |j: int| artifact_marker_line(artifacts@[j], fingerprints@[j])),
        decreases artifacts.len() - i,
    {
        let a = &artifacts[i];
        let head = concat3(a.id.as_str(), ":", a.source_path.as_str());
        let mid = concat3(head.as_str(), ":", a.target_path.as_str());
        let fp = fingerprint_text(fingerprints[i]);
        let line = concat3(mid.as_str(), ":", fp.as_str());
        let ghost before = out.deep_view();
        out.push(line);
        assert(out.deep_view() =~= before.push(line@));
        i = i + 1;
    }
    out
}

fn patch_lines(patches: &Vec<GameBinaryPatch>) -> (r: Vec<String>)
    ensures r.deep_view() == patches@.map_values(|p: GameBinaryPatch| patch_marker_line(p)),
{
    let mut out: Vec<String> = Vec::new();
    let mut i: usize = 0;
    while i < patches.len()
        invariant
            i <= patches.len(),
            out.deep_view() =~= patches@.take(i as int).map_values(|p: GameBinaryPatch| patch_marker_line(p)),
        decreases patches.len() - i,
    {
        let p = &patches[i];
        let line = concat3(concat("binary-patch:", patch_kind_text(p.kind)).as_str(), ":", p.target_path.as_str());
        let ghost before = out.deep_view();
        out.push(line);
        assert(patches@.take(i as int + 1) =~= patches@.take(i as int).push(patches@[i as int]));
        assert(out.deep_view() =~= before.push(line@));
        i = i + 1;
    }
    assert(patches@.take(i as int) =~= patches@);
    out
}

/// The marker of a current stage of `profile`'s game copied from `source_root`,
/// given the source tree's fingerprint and that of each artifact's source file.
pub fn stage_marker<P: GameProfile>(
    profile: &P,
    source_root: &str,
    source_fingerprint: u64,
    artifact_fingerprints: &Vec<u64>,
) -> (r: String)
    requires artifact_fingerprints.len() == profile.spec_runtime_artifacts().len(),
    ensures
        r@ == stage_marker_of(
            profile.spec_app_id(),
            profile.spec_runtime_profile_version(),
            profile.spec_windows_exe(),
            source_root@,
            source_fingerprint,
            profile.spec_runtime_artifacts(),
            artifact_fingerprints@,
            profile.spec_binary_patches(),
        ),
{
    let artifacts = profile.runtime_artifacts();
    let patches = profile.binary_patches();
    let a = join_texts(&artifact_lines(&artifacts, artifact_fingerprints), "\n");
    let b = join_texts(&patch_lines(&patches), "\n");
    let mut out = concat("app_id=", profile.app_id());
    out = concat3(out.as_str(), "\nprofile_version=", profile.runtime_profile_version());
    out = concat3(out.as_str(), "\nwindows_exe=", profile.windows_exe());
    out = concat3(out.as_str(), "\nsource=", source_root);
    let fp = fingerprint_text(source_fingerprint);
    out = concat3(out.as_str(), "\nsource_fingerprint=", fp.as_str());
    out = concat3(out.as_str(), "\n", a.as_str());
    out = concat3(out.as_str(), "\n", b.as_str());
    out = concat(out.as_str(), "\n");
    out
}

} // verus!
