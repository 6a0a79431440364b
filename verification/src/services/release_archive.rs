//! The binaries a downloaded quickemu release archive installs.
use vstd::prelude::*;

use std::io::Read;

use crate::services::binary_discovery::{archive_target, BinaryDiscovery};

verus! {

/// An archive member's name and contents, as plain values.
pub open spec fn member_view(m: (String, Vec<u8>)) -> (Seq<char>, Seq<u8>) {
    (m.0@, m.1@)
}

pub open spec fn members_view(ms: Seq<(String, Vec<u8>)>) -> Seq<(Seq<char>, Seq<u8>)> {
    ms.map_values(|m: (String, Vec<u8>)| member_view(m))
}

/// What the `zip` crate reads from the bytes of an archive: the name and
/// unpacked contents of each member in the archive's order, or the message
/// of the error that stopped the reading.
pub uninterp spec fn zip_read(bytes: Seq<u8>) -> Result<Seq<(Seq<char>, Seq<u8>)>, Seq<char>>;

/// Opens the bytes with `zip::ZipArchive::new` and reads each member with
/// `ZipArchive::by_index`, its name with `ZipFile::name` and its contents
/// with `Read::read_to_end`, turning an error into its message. The
/// contract claims only that the outcome is `zip_read` of the bytes: the
/// zip format is not stated here.
#[verifier::external_body]
fn zip_members(bytes: &Vec<u8>) -> (r: Result<Vec<(String, Vec<u8>)>, String>)
    ensures
        match r {
            Ok(ms) => zip_read(bytes@) == Ok::<Seq<(Seq<char>, Seq<u8>)>, Seq<char>>(
                members_view(ms@),
            ),
            Err(e) => zip_read(bytes@) == Err::<Seq<(Seq<char>, Seq<u8>)>, Seq<char>>(e@),
        },
{
    let mut archive = zip::ZipArchive::new(std::io::Cursor::new(bytes.clone())).map_err(|e| e.to_string())?;
    let mut members = Vec::new();
    for i in 0..archive.len() {
        let mut file = archive.by_index(i).map_err(|e| e.to_string())?;
        let mut data = Vec::new();
        file.read_to_end(&mut data).map_err(|e| e.to_string())?;
        members.push((file.name().to_string(), data));
    }
    Ok(members)
}

/// The binaries among the members: for each member that provides quickemu
/// or quickget, in order, the binary's name and the member's contents.
pub open spec fn binaries_of(ms: Seq<(Seq<char>, Seq<u8>)>) -> Seq<(Seq<char>, Seq<u8>)>
    decreases ms.len(),
{
    if ms.len() == 0 {
        ms
    } else {
        binaries_of(ms.drop_last()) + match archive_target(ms.last().0) {
            Some(t) => seq![(t, ms.last().1)],
            None => Seq::empty(),
        }
    }
}

/// The binaries to install from the members of a release archive.
pub fn binaries_from_members(members: Vec<(String, Vec<u8>)>) -> (r: Vec<(String, Vec<u8>)>)
    ensures
        members_view(r@) == binaries_of(members_view(members@)),
{
    let ghost orig = members_view(members@);
    let mut rest = members;
    let mut out: Vec<(String, Vec<u8>)> = Vec::new();
    let ghost mut k: int = 0;
    while rest.len() > 0
        invariant
            0 <= k <= orig.len(),
            members_view(rest@) == orig.skip(k),
            members_view(out@) == binaries_of(orig.take(k)),
        decreases rest.len(),
    {
        let ghost before = members_view(out@);
        let ghost old_rest = rest@;
        assert(members_view(old_rest).len() == old_rest.len());
        assert(k < orig.len());
        assert(orig.skip(k)[0] == orig[k]);
        assert(member_view(old_rest[0]) == orig[k]);
        let (name, data) = rest.remove(0);
        assert(rest@ == old_rest.remove(0));
        assert forall|j: int| 0 <= j < rest@.len() implies #[trigger] members_view(rest@)[j]
            == orig.skip(k + 1)[j] by {
            assert(rest@[j] == old_rest[j + 1]);
            assert(members_view(old_rest)[j + 1] == orig.skip(k)[j + 1]);
        }
        assert(members_view(rest@) =~= orig.skip(k + 1));
        let ghost t = orig.take(k + 1);
        assert(t.drop_last() == orig.take(k));
        assert(t.last() == orig[k]);
        match BinaryDiscovery::archive_member_target(name.as_str()) {
            Some(target) => {
                let ghost tv = target@;
                out.push((target, data));
                assert(members_view(out@) == before + seq![(tv, orig[k].1)]);
            },
            None => {
                assert(members_view(out@) == before + Seq::<(Seq<char>, Seq<u8>)>::empty());
            },
        }
        proof {
            k = k + 1;
        }
    }
    assert(orig.skip(k).len() == 0);
    assert(orig.take(k) == orig);
    out
}

/// The binaries a release archive installs, or the message of the error
/// that stopped its reading.
pub fn release_binaries(bytes: &Vec<u8>) -> (r: Result<Vec<(String, Vec<u8>)>, String>)
    ensures
        match r {
            Ok(bs) => zip_read(bytes@) matches Ok(ms) && members_view(bs@) == binaries_of(ms),
            Err(e) => zip_read(bytes@) == Err::<Seq<(Seq<char>, Seq<u8>)>, Seq<char>>(e@),
        },
{
    match zip_members(bytes) {
        Ok(ms) => Ok(binaries_from_members(ms)),
        Err(e) => Err(e),
    }
}

} // verus!
