//! The check that a package is the one that a release names, while it is copied.

use crate::text;
use vstd::prelude::*;

verus! {

/// The SHA-256 digest of some bytes, as `sha2::Sha256::digest` computes it.
pub uninterp spec fn sha256_of(bytes: Seq<u8>) -> Seq<u8>;

/// Calls `sha2::Sha256::digest`. The digest is a function of the bytes and has 32
/// bytes; how it is computed is only named.
#[verifier::external_body]
pub(crate) fn sha256(bytes: &[u8]) -> (r: Vec<u8>)
    ensures
        r@ == sha256_of(bytes@),
        r@.len() == 32,
{
    <sha2::Sha256 as sha2::Digest>::digest(bytes).to_vec()
}

/// What a package is copied for.
#[derive(Clone, Copy, Debug, PartialEq, Eq, Structural)]
pub enum CopyPurpose {
    /// It is downloaded.
    Download,
    /// It is copied to where only the administrator can change it.
    ProtectedPackage,
    /// It is copied to be unpacked.
    PortableStaging,
}

/// A package that is being copied.
#[derive(Debug, PartialEq, Eq)]
pub struct CheckedCopy {
    pub purpose: CopyPurpose,
    pub size: u64,
    pub sha256: String,
    pub bytes: Vec<u8>,
}

/// The mathematical value of [`CheckedCopy`].
#[verifier::ext_equal]
pub struct CopyView {
    pub purpose: CopyPurpose,
    pub size: u64,
    pub sha256: Seq<char>,
    pub bytes: Seq<u8>,
}

impl View for CheckedCopy {
    type V = CopyView;

    open spec fn view(&self) -> CopyView {
        CopyView {
            purpose: self.purpose,
            size: self.size,
            sha256: self.sha256@,
            bytes: self.bytes@,
        }
    }
}

/// What is said of a source that has not the size of the release. `length` is the
/// announced size, where there is one; `is_file` tells that the source is a file.
pub open spec fn source_fault(
    purpose: CopyPurpose,
    size: u64,
    is_file: bool,
    length: Option<u64>,
) -> Option<Seq<char>> {
    match purpose {
        CopyPurpose::Download => if length is Some && length != Some(size) {
            Some("the update download size does not match the release"@)
        } else {
            None
        },
        CopyPurpose::ProtectedPackage => if !is_file || length != Some(size) {
            Some("the downloaded package size does not match the selected release"@)
        } else {
            None
        },
        CopyPurpose::PortableStaging => if !is_file || length != Some(size) {
            Some("the portable update size does not match the selected release"@)
        } else {
            None
        },
    }
}

/// What is said of a source that has more bytes than the release.
pub open spec fn excess_text(purpose: CopyPurpose) -> Seq<char> {
    match purpose {
        CopyPurpose::Download => "the update download is larger than the release asset"@,
        CopyPurpose::ProtectedPackage =>
            "the downloaded package changed while it was being verified"@,
        CopyPurpose::PortableStaging => "the portable update changed while it was being verified"@,
    }
}

/// What is said of a source with other bytes than the release.
pub open spec fn mismatch_text(purpose: CopyPurpose, complete: bool) -> Seq<char> {
    match purpose {
        CopyPurpose::Download => if complete {
            "the downloaded update failed SHA-256 verification"@
        } else {
            "the update download is incomplete"@
        },
        CopyPurpose::ProtectedPackage =>
            "the downloaded package does not match the selected release"@,
        CopyPurpose::PortableStaging => "the portable update does not match the selected release"@,
    }
}

/// Whether some bytes are those of a release.
pub open spec fn matches_release(bytes: Seq<u8>, size: u64, sha256: Seq<char>) -> bool {
    bytes.len() == size && text::hex_of_bytes(sha256_of(bytes)) == sha256
}

impl CheckedCopy {
    /// Begins to copy a package of a size and a digest. `length` is the announced size,
    /// where there is one; `is_file` tells that the source is a file.
    pub fn begin(
        purpose: CopyPurpose,
        size: u64,
        sha256: String,
        is_file: bool,
        length: Option<u64>,
    ) -> (r: Result<CheckedCopy, String>)
        ensures
            match r {
                Ok(copy) => source_fault(purpose, size, is_file, length) is None && copy@ == (
                CopyView { purpose, size, sha256: sha256@, bytes: Seq::empty() }),
                Err(detail) => source_fault(purpose, size, is_file, length) == Some(detail@),
            },
    {
        let same_size = match length {
            Some(length) => length == size,
            None => false,
        };
        let acceptable = match purpose {
            CopyPurpose::Download => same_size || length.is_none(),
            _ => is_file && same_size,
        };
        if !acceptable {
            let detail: &str = match purpose {
                CopyPurpose::Download => "the update download size does not match the release",
                CopyPurpose::ProtectedPackage =>
                    "the downloaded package size does not match the selected release",
                CopyPurpose::PortableStaging =>
                    "the portable update size does not match the selected release",
            };
            return Err(detail.to_owned());
        }
        Ok(CheckedCopy { purpose, size, sha256, bytes: Vec::new() })
    }

    /// Takes the next bytes of the source. They may be written where the answer is no
    /// failure; after a failure nothing was taken.
    pub fn take_chunk(&mut self, chunk: &[u8]) -> (r: Result<(), String>)
        requires
            old(self)@.bytes.len() <= old(self)@.size,
        ensures
            final(self)@.bytes.len() <= final(self)@.size,
            match r {
                Ok(_) => old(self)@.bytes.len() + chunk@.len() <= old(self)@.size && final(self)@
                    == (CopyView { bytes: old(self)@.bytes + chunk@, ..old(self)@ }),
                Err(detail) => old(self)@.bytes.len() + chunk@.len() > old(self)@.size
                    && final(self)@ == old(self)@ && detail@ == excess_text(old(self)@.purpose),
            },
    {
        let room: u64 = self.size - self.bytes.len() as u64;
        if chunk.len() as u64 > room {
            let detail: &str = match self.purpose {
                CopyPurpose::Download => "the update download is larger than the release asset",
                CopyPurpose::ProtectedPackage =>
                    "the downloaded package changed while it was being verified",
                CopyPurpose::PortableStaging =>
                    "the portable update changed while it was being verified",
            };
            return Err(detail.to_owned());
        }
        let ghost before = self.bytes@;
        let mut i: usize = 0;
        while i < chunk.len()
            invariant
                i <= chunk@.len(),
                self.bytes@ == before + chunk@.take(i as int),
                self.purpose == old(self)@.purpose,
                self.size == old(self)@.size,
                self.sha256@ == old(self)@.sha256,
                before == old(self)@.bytes,
            decreases chunk@.len() - i,
        {
            self.bytes.push(chunk[i]);
            i += 1;
            assert(before + chunk@.take(i as int) =~= (before + chunk@.take(i as int - 1)).push(
                chunk@[i as int - 1],
            ));
        }
        assert(chunk@.take(i as int) =~= chunk@);
        Ok(())
    }

    /// Ends the copy: whether what was taken is the package of the release.
    pub fn finish(&self) -> (r: Result<(), String>)
        ensures
            match r {
                Ok(_) => matches_release(self@.bytes, self@.size, self@.sha256),
                Err(detail) => !matches_release(self@.bytes, self@.size, self@.sha256) && detail@
                    == mismatch_text(self@.purpose, self@.bytes.len() == self@.size),
            },
    {
        let digest = sha256(self.bytes.as_slice());
        self.conclude(digest.as_slice())
    }

    /// Ends the copy, where `digest` is that of what was taken.
    pub fn conclude(&self, digest: &[u8]) -> (r: Result<(), String>)
        ensures
            match r {
                Ok(_) => self@.bytes.len() == self@.size && text::hex_of_bytes(digest@)
                    == self@.sha256,
                Err(detail) => !(self@.bytes.len() == self@.size && text::hex_of_bytes(digest@)
                    == self@.sha256) && detail@ == mismatch_text(
                    self@.purpose,
                    self@.bytes.len() == self@.size,
                ),
            },
    {
        let complete = self.bytes.len() as u64 == self.size;
        let hex = text::lowercase_hex(digest);
        if complete && text::same_text(hex.as_str(), self.sha256.as_str()) {
            return Ok(());
        }
        let detail: &str = match self.purpose {
            CopyPurpose::Download => if complete {
                "the downloaded update failed SHA-256 verification"
            } else {
                "the update download is incomplete"
            },
            CopyPurpose::ProtectedPackage =>
                "the downloaded package does not match the selected release",
            CopyPurpose::PortableStaging =>
                "the portable update does not match the selected release",
        };
        Err(detail.to_owned())
    }
}

/// Whether a package that was downloaded before is the one of the release.
pub fn verify_file(bytes: &[u8], size: u64, sha256: &str) -> (r: bool)
    ensures
        r == matches_release(bytes@, size, sha256@),
{
    if bytes.len() as u64 != size {
        return false;
    }
    let digest = self::sha256(bytes);
    let hex = text::lowercase_hex(digest.as_slice());
    text::same_text(hex.as_str(), sha256)
}

/// A file is taken where its size is the one of the release and nothing came in between; what
/// is read of it is kept in order, up to that size; and in the end it is good exactly where all
/// of it is there and its digest is the one of the release.
pub proof fn law_whole_files_are_taken(
    purpose: CopyPurpose,
    size: u64,
    digest: String,
    is_file: bool,
    length: Option<u64>,
    chunk: &[u8],
)
    ensures
        forall|r: Result<CheckedCopy, String>|
            #![trigger call_ensures(CheckedCopy::begin, (purpose, size, digest, is_file, length), r)]
            call_ensures(CheckedCopy::begin, (purpose, size, digest, is_file, length), r) ==> {
                &&& r matches Ok(copy) ==> copy@.bytes.len() == 0 && copy@.size == size
                    && copy@.sha256 == digest@ && copy@.purpose == purpose
                &&& is_file && length == Some(size) ==> r is Ok
                &&& purpose is Download ==> (r is Ok <==> length is None || length == Some(size))
                &&& !(purpose is Download) ==> (r is Ok <==> is_file && length == Some(size))
            },
        forall|copy: &mut CheckedCopy, r: Result<(), String>|
            #![trigger call_ensures(CheckedCopy::take_chunk, (copy, chunk), r)]
            call_ensures(CheckedCopy::take_chunk, (copy, chunk), r) ==> {
                &&& r is Ok <==> (*copy)@.bytes.len() + chunk@.len() <= (*copy)@.size
                &&& r is Ok ==> final(copy)@.bytes == (*copy)@.bytes + chunk@
                &&& r is Err ==> final(copy)@.bytes == (*copy)@.bytes
                &&& final(copy)@.size == (*copy)@.size && final(copy)@.sha256 == (*copy)@.sha256
                    && final(copy)@.purpose == (*copy)@.purpose
            },
        forall|copy: &CheckedCopy, r: Result<(), String>|
            #![trigger call_ensures(CheckedCopy::finish, (copy,), r)]
            call_ensures(CheckedCopy::finish, (copy,), r) ==> (r is Ok <==> copy@.bytes.len()
                == copy@.size && text::hex_of_bytes(sha256_of(copy@.bytes)) == copy@.sha256),
        forall|copy: &CheckedCopy, found: &[u8], r: Result<(), String>|
            #![trigger call_ensures(CheckedCopy::conclude, (copy, found), r)]
            call_ensures(CheckedCopy::conclude, (copy, found), r) ==> (r is Ok <==> copy@.bytes.len()
                == copy@.size && text::hex_of_bytes(found@) == copy@.sha256),
{
}

/// A file is the one of the release exactly where its size and its digest are.
pub proof fn law_files_are_told_by_size_and_digest(bytes: &[u8], size: u64, digest: &str)
    ensures
        forall|r: bool|
            #![trigger call_ensures(verify_file, (bytes, size, digest), r)]
            call_ensures(verify_file, (bytes, size, digest), r) ==> (r <==> bytes@.len() == size
                && text::hex_of_bytes(sha256_of(bytes@)) == digest@),
{
}

}
