use vstd::prelude::*;
use vstd::utf8::*;
use crate::byte_utils::{
    get_string, get_string_null_terminated, get_u16, get_u32, le_u16, le_u32, null_run,
    string_views,
};
use crate::error::DecodeError;
use crate::wmo::chars_of;

verus! {

/// The size of one particle emitter record.
pub const PARTICLE_SIZE: u64 = 476;

/// A particle emitter of a model. Its position is kept as the bit patterns of the `f32`
/// coordinates.
#[derive(Debug)]
pub struct M2Particle {
    pub particle_id: u32,
    pub flags_1: u16,
    pub flags_2: u16,
    pub pos: [u32; 3],
    pub bone: u16,
    pub texture_id: u16,
    pub model_file_name: String,
    pub particle_name: String,
    pub blending_type: u8,
    pub emitter_type: u8,
    pub particle_dbc_color: u16,
}

/// A model file: its header, its texture paths and its particle emitters.
#[derive(Debug)]
pub struct M2File {
    pub magic: String,
    pub version: u32,
    pub name: String,
    pub textures: Vec<String>,
    pub particles: Vec<M2Particle>,
    pub n_particles: u32,
}

/// The zero-terminated string at `off`, if it lies in `b` and is valid UTF-8.
pub open spec fn string_at(b: Seq<u8>, off: int) -> Option<Seq<char>> {
    if 0 <= off < b.len() && valid_utf8(null_run(b, off)) {
        Some(decode_utf8(null_run(b, off)))
    } else {
        None
    }
}

/// A texture path names a texture image: it ends with `blp` or `BLP`.
pub open spec fn is_blp(s: Seq<char>) -> bool {
    s.len() >= 3 && (s.subrange(s.len() - 3, s.len() as int) == seq!['b', 'l', 'p'] || s.subrange(
        s.len() - 3,
        s.len() as int,
    ) == seq!['B', 'L', 'P'])
}

/// Where the name offset of texture `i` is stored, for a texture table at `t`.
pub open spec fn texture_entry(t: int, i: int) -> int {
    t + 12 * (i + 1) + 4 * i
}

/// The image paths among the first `n` textures of the table at `t`; paths that cannot be
/// read or that name no image are left out.
pub open spec fn blp_textures(b: Seq<u8>, t: int, n: nat) -> Seq<Seq<char>>
    decreases n,
{
    if n == 0 {
        seq![]
    } else {
        let prev = blp_textures(b, t, (n - 1) as nat);
        match string_at(b, le_u32(b, texture_entry(t, n - 1)) as int) {
            Some(s) => if is_blp(s) {
                prev.push(s)
            } else {
                prev
            },
            None => prev,
        }
    }
}

/// `p` holds the particle record at `off`.
pub open spec fn particle_at(b: Seq<u8>, off: int, p: M2Particle) -> bool {
    &&& p.particle_id == le_u32(b, off)
    &&& p.flags_1 == le_u16(b, off + 4)
    &&& p.flags_2 == le_u16(b, off + 6)
    &&& p.pos@ == seq![le_u32(b, off + 8), le_u32(b, off + 12), le_u32(b, off + 16)]
    &&& p.bone == le_u16(b, off + 20)
    &&& p.texture_id == le_u16(b, off + 22)
    &&& p.model_file_name@ == decode_utf8(
        b.subrange(le_u32(b, off + 28) as int, le_u32(b, off + 28) + le_u32(b, off + 24)),
    )
    &&& p.particle_name@ == decode_utf8(
        b.subrange(le_u32(b, off + 36) as int, le_u32(b, off + 36) + le_u32(b, off + 32)),
    )
    &&& p.blending_type == b[off + 40]
    &&& p.emitter_type == b[off + 41]
    &&& p.particle_dbc_color == le_u16(b, off + 42)
}

/// The particle record at `off` lies in `b` and its two strings are in bounds and valid UTF-8.
pub open spec fn particle_ok(b: Seq<u8>, off: int) -> bool {
    let ml = le_u32(b, off + 24) as int;
    let mo = le_u32(b, off + 28) as int;
    let nl = le_u32(b, off + 32) as int;
    let no = le_u32(b, off + 36) as int;
    &&& 0 <= off && off + 44 <= b.len()
    &&& mo + ml <= b.len() && valid_utf8(b.subrange(mo, mo + ml))
    &&& no + nl <= b.len() && valid_utf8(b.subrange(no, no + nl))
}

/// The header of a model file can be read: it is long enough, its magic is text and its
/// name offset points at a zero-terminated UTF-8 string.
pub open spec fn m2_header_ok(b: Seq<u8>) -> bool {
    &&& b.len() >= 0x130
    &&& valid_utf8(b.subrange(0, 4))
    &&& string_at(b, le_u32(b, 12) as int) is Some
}

/// Every entry of the texture table lies in `b`.
pub open spec fn textures_ok(b: Seq<u8>) -> bool {
    forall|i: int|
        0 <= i < le_u32(b, 80) ==> #[trigger] texture_entry(le_u32(b, 84) as int, i) + 4 <= b.len()
}

/// Every particle record lies in `b` with its strings.
pub open spec fn particles_ok(b: Seq<u8>) -> bool {
    forall|k: int|
        0 <= k < le_u32(b, 0x128) ==> #[trigger] particle_ok(b, le_u32(b, 0x12c) + PARTICLE_SIZE * k)
}

fn get_byte(b: &Vec<u8>, offset: usize) -> (r: Result<u8, DecodeError>)
    ensures
        r is Ok <==> offset < b@.len(),
        r matches Ok(v) ==> v == b@[offset as int],
{
    if offset < b.len() {
        Ok(b[offset])
    } else {
        Err(DecodeError::OutOfRange)
    }
}

fn ends_with_blp(s: &String) -> (r: bool)
    ensures
        r == is_blp(s@),
{
    let c = chars_of(s.as_str());
    let n = c.len();
    if n < 3 {
        return false;
    }
    let lower = c[n - 3] == 'b' && c[n - 2] == 'l' && c[n - 1] == 'p';
    let upper = c[n - 3] == 'B' && c[n - 2] == 'L' && c[n - 1] == 'P';
    let ghost tail = c@.subrange(n - 3, n as int);
    assert(tail[0] == c@[n - 3] && tail[1] == c@[n - 2] && tail[2] == c@[n - 1]);
    if lower {
        assert(tail =~= seq!['b', 'l', 'p']);
    }
    if upper {
        assert(tail =~= seq!['B', 'L', 'P']);
    }
    lower || upper
}

fn to_offset(v: u64) -> (r: Result<usize, DecodeError>)
    ensures
        r is Ok <==> v <= usize::MAX,
        r matches Ok(o) ==> o == v,
{
    if v > usize::MAX as u64 {
        Err(DecodeError::OutOfRange)
    } else {
        Ok(v as usize)
    }
}

fn read_particle(bytes: &Vec<u8>, offset: usize) -> (r: Result<M2Particle, DecodeError>)
    ensures
        r is Ok <==> particle_ok(bytes@, offset as int),
        r matches Ok(p) ==> particle_at(bytes@, offset as int, p),
{
    if offset > bytes.len() || bytes.len() - offset < 44 {
        return Err(DecodeError::OutOfRange);
    }
    let particle_id = get_u32(bytes, offset)?;
    let flags_1 = get_u16(bytes, offset + 4)?;
    let flags_2 = get_u16(bytes, offset + 6)?;
    let pos = [get_u32(bytes, offset + 8)?, get_u32(bytes, offset + 12)?, get_u32(bytes, offset + 16)?];
    let bone = get_u16(bytes, offset + 20)?;
    let texture_id = get_u16(bytes, offset + 22)?;
    let model_len = get_u32(bytes, offset + 24)? as usize;
    let model_offs = get_u32(bytes, offset + 28)? as usize;
    let model_file_name = get_string(bytes, model_offs, model_len)?;
    let name_len = get_u32(bytes, offset + 32)? as usize;
    let name_offs = get_u32(bytes, offset + 36)? as usize;
    let particle_name = get_string(bytes, name_offs, name_len)?;
    let blending_type = get_byte(bytes, offset + 40)?;
    let emitter_type = get_byte(bytes, offset + 41)?;
    let particle_dbc_color = get_u16(bytes, offset + 42)?;
    assert(pos@ =~= seq![
        le_u32(bytes@, offset + 8),
        le_u32(bytes@, offset + 12),
        le_u32(bytes@, offset + 16),
    ]);
    Ok(
        M2Particle {
            particle_id,
            flags_1,
            flags_2,
            pos,
            bone,
            texture_id,
            model_file_name,
            particle_name,
            blending_type,
            emitter_type,
            particle_dbc_color,
        },
    )
}

impl M2File {
    /// Decodes a model file from its bytes: the header, the texture paths that name images
    /// (others are left out), and every particle emitter.
    pub fn from_bytes(bytes: Vec<u8>) -> (r: Result<M2File, DecodeError>)
        ensures
            r is Ok <==> m2_header_ok(bytes@) && textures_ok(bytes@) && particles_ok(bytes@),
            r matches Ok(m) ==> {
                let b = bytes@;
                &&& b.len() >= 0x130
                &&& m.magic@ == decode_utf8(b.subrange(0, 4))
                &&& m.version == le_u32(b, 4)
                &&& Some(m.name@) == string_at(b, le_u32(b, 12) as int)
                &&& string_views(m.textures@) == blp_textures(b, le_u32(b, 84) as int, le_u32(b, 80) as nat)
                &&& m.n_particles == le_u32(b, 0x128)
                &&& m.particles@.len() == m.n_particles
                &&& forall|k: int|
                    0 <= k < m.particles@.len() ==> particle_at(
                        b,
                        le_u32(b, 0x12c) + PARTICLE_SIZE * k,
                        #[trigger] m.particles@[k],
                    )
            },
    {
        let blen = bytes.len();
        if blen < 0x130 {
            return Err(DecodeError::OutOfRange);
        }
        let magic = get_string(&bytes, 0, 4)?;
        let version = get_u32(&bytes, 4)?;
        let name_offset = get_u32(&bytes, 12)?;
        let name = get_string_null_terminated(&bytes, name_offset as usize)?;

        let n_textures = get_u32(&bytes, 80)?;
        let text_offset = get_u32(&bytes, 84)?;
        let mut texture_builder: Vec<String> = Vec::new();
        let mut i: u32 = 0;
        while i < n_textures
            invariant
                i <= n_textures,
                n_textures == le_u32(bytes@, 80),
                blen == bytes@.len(),
                text_offset == le_u32(bytes@, 84),
                string_views(texture_builder@) == blp_textures(bytes@, text_offset as int, i as nat),
                forall|j: int| 0 <= j < i ==> #[trigger] texture_entry(text_offset as int, j) + 4 <= bytes@.len(),
            decreases n_textures - i,
        {
            let ghost e = texture_entry(text_offset as int, i as int);
            let entry = match to_offset(text_offset as u64 + 12 * (i as u64 + 1) + 4 * (i as u64)) {
                Ok(o) => o,
                Err(err) => {
                    assert(!(texture_entry(text_offset as int, i as int) + 4 <= bytes@.len()));
                    return Err(err);
                },
            };
            let name_offset = match get_u32(&bytes, entry) {
                Ok(v) => v,
                Err(err) => {
                    assert(!(texture_entry(text_offset as int, i as int) + 4 <= bytes@.len()));
                    return Err(err);
                },
            };
            let name = get_string_null_terminated(&bytes, name_offset as usize);
            let ghost prev = string_views(texture_builder@);
            if let Ok(name) = name {
                if ends_with_blp(&name) {
                    texture_builder.push(name);
                    assert(string_views(texture_builder@) =~= prev.push(name@));
                }
            }
            i = i + 1;
        }

        let n_particles = get_u32(&bytes, 0x128)?;
        let particle_offset = get_u32(&bytes, 0x12C)?;
        let mut particle_builder: Vec<M2Particle> = Vec::new();
        let mut k: u32 = 0;
        while k < n_particles
            invariant
                k <= n_particles,
                n_particles == le_u32(bytes@, 0x128),
                blen == bytes@.len(),
                textures_ok(bytes@),
                particle_offset == le_u32(bytes@, 0x12c),
                particle_builder@.len() == k,
                forall|j: int|
                    0 <= j < k ==> particle_at(
                        bytes@,
                        particle_offset + PARTICLE_SIZE * j,
                        #[trigger] particle_builder@[j],
                    ),
                forall|j: int| 0 <= j < k ==> #[trigger] particle_ok(bytes@, particle_offset + PARTICLE_SIZE * j),
            decreases n_particles - k,
        {
            assert(PARTICLE_SIZE * (k as u64) <= 476 * 0xffff_ffffu64) by (nonlinear_arith)
                requires
                    k <= 0xffff_ffffu32,
            ;
            let offset = match to_offset(particle_offset as u64 + PARTICLE_SIZE * (k as u64)) {
                Ok(o) => o,
                Err(err) => {
                    assert(!particle_ok(bytes@, particle_offset + PARTICLE_SIZE * k));
                    return Err(err);
                },
            };
            let particle = match read_particle(&bytes, offset) {
                Ok(p) => p,
                Err(err) => {
                    assert(!particle_ok(bytes@, particle_offset + PARTICLE_SIZE * k));
                    return Err(err);
                },
            };
            particle_builder.push(particle);
            k = k + 1;
        }

        Ok(
            M2File {
                magic,
                version,
                name,
                textures: texture_builder,
                particles: particle_builder,
                n_particles,
            },
        )
    }
}

} // verus!
