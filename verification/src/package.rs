//! The wire unit of the protocol: a framed package with command tag, flags,
//! correlation id, optional credentials and an opaque payload.
//!
//! A frame is a 4-byte little-endian length prefix followed by the package
//! contents; the contents are one command byte, one flags byte (bit 0 set
//! when credentials follow), a 16-byte big-endian correlation id, the
//! optional length-prefixed credentials, and the payload.

use vstd::prelude::*;
use vstd::assert_seqs_equal;

verus! {

/// The largest package contents accepted on the wire; longer frames are
/// rejected and the connection dropped.
pub const MAX_PACKAGE_SIZE: usize = 67108864;

/// What can go wrong while turning a package into bytes or back.
#[derive(Debug, PartialEq, Eq, Copy, Clone, Structural)]
pub enum PackageError {
    CredentialsTooLong,
    FrameTooLarge,
    Malformed,
}

/// Paired login and password. On the wire each is a length-prefixed blob,
/// so each must be at most 255 octets long.
#[derive(Clone, Debug)]
pub struct Credentials {
    pub login: Vec<u8>,
    pub password: Vec<u8>,
}

/// Both blobs fit their one-byte length prefixes.
pub open spec fn creds_wf(login: Seq<u8>, password: Seq<u8>) -> bool {
    login.len() <= 255 && password.len() <= 255
}

/// The two length-prefixed blobs as they stand on the wire.
pub open spec fn creds_bytes(login: Seq<u8>, password: Seq<u8>) -> Seq<u8> {
    seq![login.len() as u8] + login + seq![password.len() as u8] + password
}

/// Reads two length-prefixed blobs from the front of `s`; yields the login,
/// the password and how many bytes the pair occupied.
pub open spec fn spec_parse_creds(s: Seq<u8>) -> Option<(Seq<u8>, Seq<u8>, int)> {
    if s.len() < 1 {
        None
    } else {
        let ll = s[0] as int;
        if s.len() < 1 + ll + 1 {
            None
        } else {
            let pl = s[1 + ll] as int;
            if s.len() < 2 + ll + pl {
                None
            } else {
                Some((s.subrange(1, 1 + ll), s.subrange(2 + ll, 2 + ll + pl), 2 + ll + pl))
            }
        }
    }
}

impl Credentials {
    pub fn new(login: Vec<u8>, password: Vec<u8>) -> (r: Credentials)
        ensures
            r.login@ == login@,
            r.password@ == password@,
    {
        Credentials { login, password }
    }

    /// Bytes the credentials occupy on the wire: both blobs and their two
    /// length prefixes.
    pub fn network_size(&self) -> (r: usize)
        requires
            creds_wf(self.login@, self.password@),
        ensures
            r == self.login@.len() + self.password@.len() + 2,
    {
        self.login.len() + self.password.len() + 2
    }

    /// Appends the wire form of the credentials to `dst`.
    pub fn write_to_bytes_mut(&self, dst: &mut Vec<u8>)
        requires
            creds_wf(self.login@, self.password@),
        ensures
            final(dst)@ == old(dst)@ + creds_bytes(self.login@, self.password@),
    {
        dst.push(self.login.len() as u8);
        append_bytes(dst, &self.login);
        dst.push(self.password.len() as u8);
        append_bytes(dst, &self.password);
        proof {
            assert_seqs_equal!(
                final(dst)@,
                old(dst)@ + creds_bytes(self.login@, self.password@)
            );
        }
    }

    /// Reads credentials from `buf` starting at `start`; yields the parsed
    /// pair and the offset of the first byte after them.
    pub fn parse_from_buf(buf: &Vec<u8>, start: usize) -> (r: Option<(Credentials, usize)>)
        requires
            start <= buf@.len(),
        ensures
            match r {
                Some(pair) => {
                    &&& spec_parse_creds(buf@.skip(start as int)) == Some(
                        (pair.0.login@, pair.0.password@, pair.1 - start),
                    )
                    &&& start <= pair.1 <= buf@.len()
                    &&& creds_wf(pair.0.login@, pair.0.password@)
                },
                None => spec_parse_creds(buf@.skip(start as int)) is None,
            },
    {
        let ghost t = buf@.skip(start as int);
        if buf.len() - start < 1 {
            return None;
        }
        let ll = buf[start] as usize;
        if buf.len() - start < ll + 2 {
            assert(t.len() < 1 + (t[0] as int) + 1);
            return None;
        }
        let pl = buf[start + 1 + ll] as usize;
        assert(t[1 + ll as int] == buf@[start + 1 + ll]);
        if buf.len() - start < ll + pl + 2 {
            return None;
        }
        let login = copy_range(buf, start + 1, ll);
        let password = copy_range(buf, start + 2 + ll, pl);
        let consumed_end = start + 2 + ll + pl;
        proof {
            assert_seqs_equal!(login@, t.subrange(1, 1 + ll as int));
            assert_seqs_equal!(
                password@,
                t.subrange(2 + ll as int, 2 + ll as int + pl as int)
            );
        }
        Some((Credentials { login, password }, consumed_end))
    }
}

/// Copies `v`'s bytes onto the end of `dst`.
pub fn append_bytes(dst: &mut Vec<u8>, v: &Vec<u8>)
    ensures
        final(dst)@ == old(dst)@ + v@,
{
    let mut i: usize = 0;
    while i < v.len()
        invariant
            i <= v@.len(),
            dst@ == old(dst)@ + v@.take(i as int),
        decreases v@.len() - i,
    {
        dst.push(v[i]);
        i = i + 1;
        proof {
            assert_seqs_equal!(dst@, old(dst)@ + v@.take(i as int));
        }
    }
    proof {
        assert_seqs_equal!(final(dst)@, old(dst)@ + v@);
    }
}

/// Copies `len` bytes of `buf` starting at `start` into a fresh vector.
pub fn copy_range(buf: &Vec<u8>, start: usize, len: usize) -> (r: Vec<u8>)
    requires
        start + len <= buf@.len(),
    ensures
        r@ == buf@.subrange(start as int, start as int + len as int),
{
    let n = buf.len();
    let mut r: Vec<u8> = Vec::new();
    let mut i: usize = 0;
    while i < len
        invariant
            i <= len,
            start + len <= n == buf@.len(),
            r@ == buf@.subrange(start as int, start as int + i as int),
        decreases len - i,
    {
        r.push(buf[start + i]);
        i = i + 1;
        proof {
            assert_seqs_equal!(r@, buf@.subrange(start as int, start as int + i as int));
        }
    }
    r
}

/// The sixteen bytes of `x`, most significant first.
pub open spec fn u128_be_bytes(x: u128) -> Seq<u8> {
    seq![
        (x >> 120) as u8,
        (x >> 112) as u8,
        (x >> 104) as u8,
        (x >> 96) as u8,
        (x >> 88) as u8,
        (x >> 80) as u8,
        (x >> 72) as u8,
        (x >> 64) as u8,
        (x >> 56) as u8,
        (x >> 48) as u8,
        (x >> 40) as u8,
        (x >> 32) as u8,
        (x >> 24) as u8,
        (x >> 16) as u8,
        (x >> 8) as u8,
        x as u8,
    ]
}

/// The value whose big-endian bytes are the first sixteen entries of `s`.
pub open spec fn u128_from_be_bytes(s: Seq<u8>) -> u128
    recommends
        s.len() >= 16,
{
    ((s[0] as u128) << 120) | ((s[1] as u128) << 112) | ((s[2] as u128) << 104) | ((s[3] as u128)
        << 96) | ((s[4] as u128) << 88) | ((s[5] as u128) << 80) | ((s[6] as u128) << 72) | ((
    s[7] as u128) << 64) | ((s[8] as u128) << 56) | ((s[9] as u128) << 48) | ((s[10] as u128)
        << 40) | ((s[11] as u128) << 32) | ((s[12] as u128) << 24) | ((s[13] as u128) << 16) | ((
    s[14] as u128) << 8) | (s[15] as u128)
}

/// The four bytes of `x`, least significant first.
pub open spec fn u32_le_bytes(x: u32) -> Seq<u8> {
    seq![x as u8, (x >> 8) as u8, (x >> 16) as u8, (x >> 24) as u8]
}

/// The value whose little-endian bytes are the first four entries of `s`.
pub open spec fn u32_from_le_bytes(s: Seq<u8>) -> u32
    recommends
        s.len() >= 4,
{
    (s[0] as u32) | ((s[1] as u32) << 8) | ((s[2] as u32) << 16) | ((s[3] as u32) << 24)
}

pub proof fn lemma_u128_be_round_trip(x: u128)
    ensures
        u128_from_be_bytes(u128_be_bytes(x)) == x,
{
    assert(((((x >> 120) as u8) as u128) << 120) | ((((x >> 112) as u8) as u128) << 112) | ((((x
        >> 104) as u8) as u128) << 104) | ((((x >> 96) as u8) as u128) << 96) | ((((x
        >> 88) as u8) as u128) << 88) | ((((x >> 80) as u8) as u128) << 80) | ((((x
        >> 72) as u8) as u128) << 72) | ((((x >> 64) as u8) as u128) << 64) | ((((x
        >> 56) as u8) as u128) << 56) | ((((x >> 48) as u8) as u128) << 48) | ((((x
        >> 40) as u8) as u128) << 40) | ((((x >> 32) as u8) as u128) << 32) | ((((x
        >> 24) as u8) as u128) << 24) | ((((x >> 16) as u8) as u128) << 16) | ((((x
        >> 8) as u8) as u128) << 8) | ((x as u8) as u128) == x) by (bit_vector);
}

pub proof fn lemma_u32_le_round_trip(x: u32)
    ensures
        u32_from_le_bytes(u32_le_bytes(x)) == x,
{
    assert(((x as u8) as u32) | ((((x >> 8) as u8) as u32) << 8) | ((((x >> 16) as u8) as u32)
        << 16) | ((((x >> 24) as u8) as u32) << 24) == x) by (bit_vector);
}

/// Appends the four little-endian bytes of `x` to `dst`.
pub fn write_u32_le(dst: &mut Vec<u8>, x: u32)
    ensures
        final(dst)@ == old(dst)@ + u32_le_bytes(x),
{
    dst.push(#[verifier::truncate] (x as u8));
    dst.push(#[verifier::truncate] ((x >> 8) as u8));
    dst.push(#[verifier::truncate] ((x >> 16) as u8));
    dst.push(#[verifier::truncate] ((x >> 24) as u8));
    proof {
        assert_seqs_equal!(final(dst)@, old(dst)@ + u32_le_bytes(x));
    }
}

/// Appends the sixteen big-endian bytes of `x` to `dst`.
pub fn write_u128_be(dst: &mut Vec<u8>, x: u128)
    ensures
        final(dst)@ == old(dst)@ + u128_be_bytes(x),
{
    dst.push(#[verifier::truncate] ((x >> 120) as u8));
    dst.push(#[verifier::truncate] ((x >> 112) as u8));
    dst.push(#[verifier::truncate] ((x >> 104) as u8));
    dst.push(#[verifier::truncate] ((x >> 96) as u8));
    dst.push(#[verifier::truncate] ((x >> 88) as u8));
    dst.push(#[verifier::truncate] ((x >> 80) as u8));
    dst.push(#[verifier::truncate] ((x >> 72) as u8));
    dst.push(#[verifier::truncate] ((x >> 64) as u8));
    dst.push(#[verifier::truncate] ((x >> 56) as u8));
    dst.push(#[verifier::truncate] ((x >> 48) as u8));
    dst.push(#[verifier::truncate] ((x >> 40) as u8));
    dst.push(#[verifier::truncate] ((x >> 32) as u8));
    dst.push(#[verifier::truncate] ((x >> 24) as u8));
    dst.push(#[verifier::truncate] ((x >> 16) as u8));
    dst.push(#[verifier::truncate] ((x >> 8) as u8));
    dst.push(#[verifier::truncate] (x as u8));
    proof {
        assert_seqs_equal!(final(dst)@, old(dst)@ + u128_be_bytes(x));
    }
}

/// Reads a little-endian 32-bit value at offset `i`.
pub fn read_u32_le(buf: &Vec<u8>, i: usize) -> (r: u32)
    requires
        i + 4 <= buf@.len(),
    ensures
        r == u32_from_le_bytes(buf@.subrange(i as int, i as int + 4)),
{
    let n = buf.len();
    let b0 = buf[i];
    let b1 = buf[i + 1];
    let b2 = buf[i + 2];
    let b3 = buf[i + 3];
    let r = (b0 as u32) | ((b1 as u32) << 8) | ((b2 as u32) << 16) | ((b3 as u32) << 24);
    proof {
        let s = buf@.subrange(i as int, i as int + 4);
        assert(s[0] == b0 && s[1] == b1 && s[2] == b2 && s[3] == b3);
    }
    r
}

/// Reads a big-endian 128-bit value at offset `i`.
pub fn read_u128_be(buf: &Vec<u8>, i: usize) -> (r: u128)
    requires
        i + 16 <= buf@.len(),
    ensures
        r == u128_from_be_bytes(buf@.subrange(i as int, i as int + 16)),
{
    let n = buf.len();
    let r = ((buf[i] as u128) << 120) | ((buf[i + 1] as u128) << 112) | ((buf[i + 2] as u128)
        << 104) | ((buf[i + 3] as u128) << 96) | ((buf[i + 4] as u128) << 88) | ((buf[i
        + 5] as u128) << 80) | ((buf[i + 6] as u128) << 72) | ((buf[i + 7] as u128) << 64) | ((
    buf[i + 8] as u128) << 56) | ((buf[i + 9] as u128) << 48) | ((buf[i + 10] as u128) << 40) | ((
    buf[i + 11] as u128) << 32) | ((buf[i + 12] as u128) << 24) | ((buf[i + 13] as u128) << 16) | ((
    buf[i + 14] as u128) << 8) | (buf[i + 15] as u128);
    proof {
        let s = buf@.subrange(i as int, i as int + 16);
        assert(forall|k: int| 0 <= k < 16 ==> s[k] == buf@[i + k]);
    }
    r
}

/// The mathematical value of a package: its command tag, correlation id,
/// optional credentials and payload, free of representation detail.
#[verifier::ext_equal]
pub ghost struct PackageModel {
    pub cmd: u8,
    pub correlation: u128,
    pub creds: Option<(Seq<u8>, Seq<u8>)>,
    pub payload: Seq<u8>,
}

/// A package that can stand on the wire: credentials fit their length
/// prefixes and the whole contents fit under the frame ceiling.
pub open spec fn package_wf(m: PackageModel) -> bool {
    &&& match m.creds {
        Some(c) => creds_wf(c.0, c.1),
        None => true,
    }
    &&& package_network_size(m) <= MAX_PACKAGE_SIZE
}

/// Contents size on the wire: the 18 header bytes, the credentials if any,
/// and the payload.
pub open spec fn package_network_size(m: PackageModel) -> int {
    18 + (match m.creds {
        Some(c) => (c.0.len() + c.1.len() + 2) as int,
        None => 0int,
    }) + m.payload.len()
}

/// The package contents as they stand on the wire, without the length prefix.
pub open spec fn package_contents(m: PackageModel) -> Seq<u8> {
    seq![
        m.cmd,
        if m.creds is Some {
            1u8
        } else {
            0u8
        },
    ] + u128_be_bytes(m.correlation) + (match m.creds {
        Some(c) => creds_bytes(c.0, c.1),
        None => Seq::<u8>::empty(),
    }) + m.payload
}

/// The full frame: little-endian length prefix, then the contents.
pub open spec fn frame_bytes(m: PackageModel) -> Seq<u8> {
    u32_le_bytes(package_contents(m).len() as u32) + package_contents(m)
}

/// Reads package contents (everything after the length prefix).
pub open spec fn spec_parse_contents(s: Seq<u8>) -> Option<PackageModel> {
    if s.len() < 18 {
        None
    } else {
        let cmd = s[0];
        let flags = s[1];
        let correlation = u128_from_be_bytes(s.subrange(2, 18));
        if flags == 0 {
            Some(PackageModel { cmd, correlation, creds: None, payload: s.skip(18) })
        } else if flags == 1 {
            match spec_parse_creds(s.skip(18)) {
                Some(parts) => Some(
                    PackageModel {
                        cmd,
                        correlation,
                        creds: Some((parts.0, parts.1)),
                        payload: s.skip(18 + parts.2),
                    },
                ),
                None => None,
            }
        } else {
            None
        }
    }
}

/// Reads a whole frame: the prefix must equal the length of what follows it,
/// and the contents must fit under the frame ceiling.
pub open spec fn spec_parse_frame(s: Seq<u8>) -> Option<PackageModel> {
    if s.len() < 4 {
        None
    } else {
        let n = u32_from_le_bytes(s.take(4)) as int;
        if n != s.len() - 4 || n > MAX_PACKAGE_SIZE {
            None
        } else {
            spec_parse_contents(s.skip(4))
        }
    }
}

/// The wire unit: an immutable record of command tag, correlation id,
/// optional credentials and opaque payload.
#[derive(Clone, Debug)]
pub struct Package {
    pub cmd: u8,
    pub correlation: u128,
    pub creds_opt: Option<Credentials>,
    pub payload: Vec<u8>,
}

impl View for Package {
    type V = PackageModel;

    open spec fn view(&self) -> PackageModel {
        PackageModel {
            cmd: self.cmd,
            correlation: self.correlation,
            creds: match self.creds_opt {
                Some(c) => Some((c.login@, c.password@)),
                None => None,
            },
            payload: self.payload@,
        }
    }
}

impl Package {
    /// A bare package: no credentials, empty payload.
    pub fn new(cmd: u8, correlation: u128) -> (r: Package)
        ensures
            r@ == (PackageModel { cmd, correlation, creds: None, payload: Seq::<u8>::empty() }),
    {
        let r = Package { cmd, correlation, creds_opt: None, payload: Vec::new() };
        proof {
            assert(r@ =~= PackageModel {
                cmd,
                correlation,
                creds: None,
                payload: Seq::<u8>::empty(),
            });
        }
        r
    }

    /// A package carrying a payload and, when given, credentials.
    pub fn with_payload(
        cmd: u8,
        correlation: u128,
        creds_opt: Option<Credentials>,
        payload: Vec<u8>,
    ) -> (r: Package)
        ensures
            r.cmd == cmd,
            r.correlation == correlation,
            r.payload@ == payload@,
            match creds_opt {
                Some(c) => r@.creds == Some((c.login@, c.password@)),
                None => r@.creds is None,
            },
    {
        Package { cmd, correlation, creds_opt, payload }
    }

    /// Bytes the package occupies on the wire, without the length prefix:
    /// the 18 header bytes, the credentials if any, and the payload.
    pub fn network_size(&self) -> (r: usize)
        requires
            package_wf(self@),
        ensures
            r == package_network_size(self@),
            r == package_contents(self@).len(),
    {
        let creds_size: usize = match &self.creds_opt {
            Some(c) => c.network_size(),
            None => 0,
        };
        18 + creds_size + self.payload.len()
    }

    /// Serializes the package into a full frame. Fails exactly when a
    /// credential blob overruns its one-byte length prefix, or the contents
    /// would overrun the frame ceiling.
    pub fn serialize(&self) -> (r: Result<Vec<u8>, PackageError>)
        ensures
            match r {
                Ok(bytes) => package_wf(self@) && bytes@ == frame_bytes(self@),
                Err(e) => !package_wf(self@) && e == (if (match self@.creds {
                    Some(c) => creds_wf(c.0, c.1),
                    None => true,
                }) {
                    PackageError::FrameTooLarge
                } else {
                    PackageError::CredentialsTooLong
                }),
            },
    {
        let creds_size: usize = match &self.creds_opt {
            Some(c) => {
                if c.login.len() > 255 || c.password.len() > 255 {
                    return Err(PackageError::CredentialsTooLong);
                }
                c.login.len() + c.password.len() + 2
            },
            None => 0,
        };
        if self.payload.len() > MAX_PACKAGE_SIZE - 18 - creds_size {
            return Err(PackageError::FrameTooLarge);
        }
        let size = 18 + creds_size + self.payload.len();
        let mut dst: Vec<u8> = Vec::new();
        write_u32_le(&mut dst, size as u32);
        dst.push(self.cmd);
        match &self.creds_opt {
            Some(_) => dst.push(1u8),
            None => dst.push(0u8),
        }
        write_u128_be(&mut dst, self.correlation);
        match &self.creds_opt {
            Some(c) => c.write_to_bytes_mut(&mut dst),
            None => (),
        }
        append_bytes(&mut dst, &self.payload);
        proof {
            assert(package_contents(self@).len() == size);
            assert_seqs_equal!(dst@, frame_bytes(self@));
        }
        Ok(dst)
    }

    /// Parses a full frame. Succeeds exactly on the frames the wire grammar
    /// admits; a frame whose contents overrun the ceiling is refused as
    /// too large, every other refusal as malformed.
    pub fn parse(buf: &Vec<u8>) -> (r: Result<Package, PackageError>)
        ensures
            match r {
                Ok(p) => spec_parse_frame(buf@) == Some(p@),
                Err(e) => {
                    &&& spec_parse_frame(buf@) is None
                    &&& (e == PackageError::FrameTooLarge <==> (buf@.len() >= 4
                        && u32_from_le_bytes(buf@.take(4)) > MAX_PACKAGE_SIZE))
                },
            },
    {
        if buf.len() < 4 {
            return Err(PackageError::Malformed);
        }
        let prefix = read_u32_le(buf, 0);
        proof {
            assert(buf@.subrange(0, 4) =~= buf@.take(4));
        }
        if prefix > MAX_PACKAGE_SIZE as u32 {
            return Err(PackageError::FrameTooLarge);
        }
        if (prefix as usize) != buf.len() - 4 {
            return Err(PackageError::Malformed);
        }
        let ghost s = buf@.skip(4);
        if buf.len() - 4 < 18 {
            return Err(PackageError::Malformed);
        }
        let cmd = buf[4];
        let flags = buf[5];
        proof {
            assert(s[0] == buf@[4] && s[1] == buf@[5]);
        }
        let correlation = read_u128_be(buf, 6);
        proof {
            assert_seqs_equal!(buf@.subrange(6, 22), s.subrange(2, 18));
        }
        if flags == 0 {
            let payload = copy_range(buf, 22, buf.len() - 22);
            proof {
                assert_seqs_equal!(payload@, s.skip(18));
            }
            let p = Package { cmd, correlation, creds_opt: None, payload };
            proof {
                assert(spec_parse_frame(buf@) == Some(p@));
            }
            Ok(p)
        } else if flags == 1 {
            proof {
                assert_seqs_equal!(buf@.skip(22), s.skip(18));
            }
            match Credentials::parse_from_buf(buf, 22) {
                Some(pair) => {
                    let (creds, after) = pair;
                    let payload = copy_range(buf, after, buf.len() - after);
                    proof {
                        let parts = spec_parse_creds(s.skip(18)).unwrap();
                        assert(after - 22 == parts.2);
                        assert_seqs_equal!(payload@, s.skip(18 + parts.2));
                    }
                    let p = Package { cmd, correlation, creds_opt: Some(creds), payload };
                    proof {
                        assert(spec_parse_frame(buf@) == Some(p@));
                    }
                    Ok(p)
                },
                None => Err(PackageError::Malformed),
            }
        } else {
            Err(PackageError::Malformed)
        }
    }
}

/// Reading credentials back from their wire form yields the same blobs and
/// consumes exactly their wire size, whatever follows them.
pub proof fn lemma_parse_creds_round_trip(login: Seq<u8>, password: Seq<u8>, rest: Seq<u8>)
    requires
        creds_wf(login, password),
    ensures
        spec_parse_creds(creds_bytes(login, password) + rest) == Some(
            (login, password, (2 + login.len() + password.len()) as int),
        ),
{
    let s = creds_bytes(login, password) + rest;
    let ll = login.len() as int;
    let pl = password.len() as int;
    assert(s[0] == login.len() as u8);
    assert(s[0] as int == ll);
    assert(s[1 + ll] == password.len() as u8);
    assert(s[1 + ll] as int == pl);
    assert_seqs_equal!(s.subrange(1, 1 + ll), login);
    assert_seqs_equal!(s.subrange(2 + ll, 2 + ll + pl), password);
}

/// Package round-trip: parsing the frame a well-formed package serializes
/// to yields that package back, unchanged.
pub proof fn lemma_package_round_trip(m: PackageModel)
    requires
        package_wf(m),
    ensures
        spec_parse_frame(frame_bytes(m)) == Some(m),
{
    let contents = package_contents(m);
    let s = frame_bytes(m);
    let n = contents.len() as u32;
    assert_seqs_equal!(s.take(4), u32_le_bytes(n));
    lemma_u32_le_round_trip(n);
    assert_seqs_equal!(s.skip(4), contents);
    lemma_parse_contents_round_trip(m);
}

/// Parsing the contents a well-formed package lays out yields that package.
pub proof fn lemma_parse_contents_round_trip(m: PackageModel)
    requires
        package_wf(m),
    ensures
        spec_parse_contents(package_contents(m)) == Some(m),
{
    let s = package_contents(m);
    assert(s.len() >= 18);
    assert(s[0] == m.cmd);
    assert_seqs_equal!(s.subrange(2, 18), u128_be_bytes(m.correlation));
    lemma_u128_be_round_trip(m.correlation);
    match m.creds {
        Some(c) => {
            assert(s[1] == 1u8);
            assert_seqs_equal!(s.skip(18), creds_bytes(c.0, c.1) + m.payload);
            lemma_parse_creds_round_trip(c.0, c.1, m.payload);
            let consumed = 2 + c.0.len() + c.1.len();
            assert_seqs_equal!(s.skip(18 + consumed as int), m.payload);
            assert(spec_parse_contents(s).unwrap() =~= m);
        },
        None => {
            assert(s[1] == 0u8);
            assert_seqs_equal!(s.skip(18), m.payload);
            assert(spec_parse_contents(s).unwrap() =~= m);
        },
    }
}

} // verus!
