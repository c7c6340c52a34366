//! The transform text codec: a fixed-format, versioned, line-oriented
//! encoding of a transform (translation vector, rotation quaternion, scale
//! vector) and its strict, positional decoder.
//!
//! Float components are carried as IEEE 754 single-precision bit patterns
//! (`u32`), so the codec itself is plain integer and text logic. The
//! conversion between a bit pattern and its decimal text goes through the
//! standard library's float display and parser behind trusted wrappers; the
//! text each bit pattern produces, and the bit pattern each text parses to,
//! are named by uninterpreted functions that the contracts share.

use vstd::prelude::*;
use vstd::string::StringExecFns;
use byteorder::ByteOrder;

verus! {

/// A 3-component vector; each field holds the IEEE 754 single-precision bit
/// pattern of the float component it stands for.
#[derive(Clone, Copy, Debug, PartialEq, Eq, Structural)]
pub struct Vec3Bits {
    /// Bit pattern of the first component.
    pub x: u32,
    /// Bit pattern of the second component.
    pub y: u32,
    /// Bit pattern of the third component.
    pub z: u32,
}

impl Vec3Bits {
    /// Pack three component bit patterns into a vector.
    pub fn new(x: u32, y: u32, z: u32) -> (r: Self)
        ensures
            r == (Vec3Bits { x, y, z }),
    {
        Vec3Bits { x, y, z }
    }
}

/// A rotation quaternion; each field holds the IEEE 754 single-precision bit
/// pattern of the float component it stands for. The codec neither
/// renormalizes it nor checks it for unit length.
#[derive(Clone, Copy, Debug, PartialEq, Eq, Structural)]
pub struct QuatBits {
    /// Bit pattern of the first imaginary component.
    pub x: u32,
    /// Bit pattern of the second imaginary component.
    pub y: u32,
    /// Bit pattern of the third imaginary component.
    pub z: u32,
    /// Bit pattern of the real component.
    pub w: u32,
}

impl QuatBits {
    /// Pack four component bit patterns into a quaternion.
    pub fn new(x: u32, y: u32, z: u32, w: u32) -> (r: Self)
        ensures
            r == (QuatBits { x, y, z, w }),
    {
        QuatBits { x, y, z, w }
    }
}

/// An entity's pose: translation, rotation and scale, with every float
/// component carried as its bit pattern.
#[derive(Clone, Copy, Debug, PartialEq, Eq, Structural)]
pub struct Transform {
    /// Where the entity stands.
    pub translation: Vec3Bits,
    /// How the entity is turned.
    pub rotation: QuatBits,
    /// How the entity is stretched; may be negative or non-uniform.
    pub scale: Vec3Bits,
}

/// The transform that leaves an entity as it is: no translation, the unit
/// quaternion, and a scale of one on every axis, written as the bit patterns
/// of zero and of one.
pub open spec fn identity_transform() -> Transform {
    Transform {
        translation: Vec3Bits { x: 0, y: 0, z: 0 },
        rotation: QuatBits { x: 0, y: 0, z: 0, w: 0x3f80_0000 },
        scale: Vec3Bits { x: 0x3f80_0000, y: 0x3f80_0000, z: 0x3f80_0000 },
    }
}

impl Transform {
    /// Build a transform from its three parts.
    pub fn new(translation: Vec3Bits, rotation: QuatBits, scale: Vec3Bits) -> (r: Self)
        ensures
            r == (Transform { translation, rotation, scale }),
    {
        Transform { translation, rotation, scale }
    }

    /// The identity transform.
    pub fn identity() -> (r: Self)
        ensures
            r == identity_transform(),
    {
        Transform {
            translation: Vec3Bits { x: 0, y: 0, z: 0 },
            rotation: QuatBits { x: 0, y: 0, z: 0, w: 0x3f80_0000 },
            scale: Vec3Bits { x: 0x3f80_0000, y: 0x3f80_0000, z: 0x3f80_0000 },
        }
    }
}

/// An error from decoding a savefile; it carries a human-readable message
/// only, with no structured code.
#[derive(Debug, PartialEq, Eq)]
pub struct WhereWasIParseError {
    /// What went wrong, in words.
    pub message: String,
}

/// The fixed message of a missing-line failure: an expected line was absent.
pub open spec fn missing_line_msg() -> Seq<char> {
    "Expected line to be there, but it wasn't there"@
}

/// The message of a version mismatch: a fixed prefix followed by the first
/// line as it was found.
pub open spec fn wrong_version_msg(found: Seq<char>) -> Seq<char> {
    "Wrong version: "@ + found
}

impl WhereWasIParseError {
    /// The error for a line that should have been there and was not.
    pub fn expected_line() -> (r: Self)
        ensures
            r.message@ == missing_line_msg(),
    {
        WhereWasIParseError {
            message: "Expected line to be there, but it wasn't there".to_owned(),
        }
    }

    /// Wrap a lower-level failure's description verbatim.
    pub fn from_message(message: String) -> (r: Self)
        ensures
            r.message@ == message@,
    {
        WhereWasIParseError { message }
    }

    /// The error for a first line that is not the recognized version marker.
    pub fn wrong_version(found: &str) -> (r: Self)
        ensures
            r.message@ == wrong_version_msg(found@),
    {
        let mut message: String = "Wrong version: ".to_owned();
        message.append(found);
        WhereWasIParseError { message }
    }
}

/// The single version marker this codec recognizes on the first line.
pub open spec fn version_line() -> Seq<char> {
    "v0"@
}

/// The text that the standard shortest round-trip decimal display of a
/// 32-bit float produces for the float with this bit pattern.
pub uninterp spec fn float_str(bits: u32) -> Seq<char>;

/// The bit pattern of the 32-bit float that the standard library's float
/// parser returns for this text, or `None` where the text does not parse.
pub uninterp spec fn parse_f32_str(s: Seq<char>) -> Option<u32>;

/// The description that the standard library's float-parse error carries for
/// a text that does not parse.
pub uninterp spec fn parse_err_msg(s: Seq<char>) -> Seq<char>;

/// The float with this bit pattern is finite, neither an infinity nor a NaN:
/// its exponent field is not all ones.
pub open spec fn is_finite_bits(bits: u32) -> bool {
    (bits & 0x7fff_ffff) < 0x7f80_0000
}

/// Every float component of `t` is finite.
pub open spec fn transform_finite(t: Transform) -> bool {
    &&& is_finite_bits(t.translation.x)
    &&& is_finite_bits(t.translation.y)
    &&& is_finite_bits(t.translation.z)
    &&& is_finite_bits(t.rotation.x)
    &&& is_finite_bits(t.rotation.y)
    &&& is_finite_bits(t.rotation.z)
    &&& is_finite_bits(t.rotation.w)
    &&& is_finite_bits(t.scale.x)
    &&& is_finite_bits(t.scale.y)
    &&& is_finite_bits(t.scale.z)
}

/// Relies on the standard library's float display, reached through
/// `byteorder::LittleEndian::read_f32`, which reassembles the float with
/// exactly the given bit pattern. The displayed text is a function of the
/// bit pattern alone, and it is the shortest decimal text that reads back as
/// the same float, so parsing it returns the same bit pattern whenever the
/// float is finite.
#[verifier::external_body]
fn fmt_float(bits: u32) -> (r: String)
    ensures
        r@ == float_str(bits),
        is_finite_bits(bits) ==> parse_f32_str(r@) == Some(bits),
{
    let v = byteorder::LittleEndian::read_f32(&bits.to_le_bytes());
    v.to_string()
}

/// Relies on the standard library's float parser (`str::parse`, reached
/// through type inference against `byteorder::LittleEndian::write_f32`,
/// which takes the parsed float apart into exactly its bit pattern) and on
/// its error's display: the parsed bit pattern and the error's description
/// are both functions of the input text alone.
#[verifier::external_body]
fn parse_float(s: &str) -> (r: Result<u32, String>)
    ensures
        match r {
            Ok(bits) => parse_f32_str(s@) == Some(bits),
            Err(m) => parse_f32_str(s@) is None && m@ == parse_err_msg(s@),
        },
{
    match s.parse() {
        Ok(v) => {
            let mut raw = [0u8; 4];
            byteorder::LittleEndian::write_f32(&mut raw, v);
            Ok(u32::from_le_bytes(raw))
        }
        Err(e) => Err(e.to_string()),
    }
}

/// The 17 lines of the encoded form of `t`: the version marker, then a
/// blank line and a label before each block of numeric lines, one float
/// component per line.
pub open spec fn transform_lines(t: Transform) -> Seq<Seq<char>> {
    seq![
        version_line(),
        Seq::<char>::empty(),
        "translation:"@,
        float_str(t.translation.x),
        float_str(t.translation.y),
        float_str(t.translation.z),
        Seq::<char>::empty(),
        "rotation:"@,
        float_str(t.rotation.x),
        float_str(t.rotation.y),
        float_str(t.rotation.z),
        float_str(t.rotation.w),
        Seq::<char>::empty(),
        "scale:"@,
        float_str(t.scale.x),
        float_str(t.scale.y),
        float_str(t.scale.z),
    ]
}

/// The text of a sequence of lines: each line followed by a newline, the
/// last one included.
pub open spec fn join_lines(lines: Seq<Seq<char>>) -> Seq<char>
    decreases lines.len(),
{
    if lines.len() == 0 {
        Seq::empty()
    } else {
        join_lines(lines.drop_last()) + lines.last() + "\n"@
    }
}

/// The full text of the savefile that encodes `t`.
pub open spec fn transform_text(t: Transform) -> Seq<char> {
    join_lines(transform_lines(t))
}

/// The number of lines the format requires.
pub open spec fn line_count() -> int {
    17
}

/// Whether position `i` (counting from zero) holds a float component.
pub open spec fn is_numeric_pos(i: int) -> bool {
    ||| 3 <= i <= 5
    ||| 8 <= i <= 11
    ||| 14 <= i <= 16
}

/// The outcome of reading the line at position `i` as a float: its bit
/// pattern, the fixed missing-line message where the sequence is too short,
/// or the parse error's description where the text is not a float.
pub open spec fn parse_line_at(lines: Seq<Seq<char>>, i: int) -> Result<u32, Seq<char>> {
    if i >= lines.len() {
        Err(missing_line_msg())
    } else {
        match parse_f32_str(lines[i]) {
            Some(bits) => Ok(bits),
            None => Err(parse_err_msg(lines[i])),
        }
    }
}

/// Three float lines in a row, starting at position `i`, read into a vector;
/// the first failure wins.
pub open spec fn parse_vec3_at(lines: Seq<Seq<char>>, i: int) -> Result<Vec3Bits, Seq<char>> {
    match parse_line_at(lines, i) {
        Err(m) => Err(m),
        Ok(x) => match parse_line_at(lines, i + 1) {
            Err(m) => Err(m),
            Ok(y) => match parse_line_at(lines, i + 2) {
                Err(m) => Err(m),
                Ok(z) => Ok(Vec3Bits { x, y, z }),
            },
        },
    }
}

/// Four float lines in a row, starting at position `i`, read into a
/// quaternion; the first failure wins.
pub open spec fn parse_quat_at(lines: Seq<Seq<char>>, i: int) -> Result<QuatBits, Seq<char>> {
    match parse_line_at(lines, i) {
        Err(m) => Err(m),
        Ok(x) => match parse_line_at(lines, i + 1) {
            Err(m) => Err(m),
            Ok(y) => match parse_line_at(lines, i + 2) {
                Err(m) => Err(m),
                Ok(z) => match parse_line_at(lines, i + 3) {
                    Err(m) => Err(m),
                    Ok(w) => Ok(QuatBits { x, y, z, w }),
                },
            },
        },
    }
}

/// What decoding a sequence of lines yields: the transform, or the message
/// of the first failure in reading order. The blank and label positions are
/// consumed without being looked at; a failure there can only be their
/// absence, and then the next read position is absent too, with the same
/// message, so only the version line and the ten numeric positions appear
/// here.
pub open spec fn decode_transform_spec(lines: Seq<Seq<char>>) -> Result<Transform, Seq<char>> {
    if lines.len() == 0 {
        Err(missing_line_msg())
    } else if lines[0] != version_line() {
        Err(wrong_version_msg(lines[0]))
    } else {
        match parse_vec3_at(lines, 3) {
            Err(m) => Err(m),
            Ok(translation) => match parse_quat_at(lines, 8) {
                Err(m) => Err(m),
                Ok(rotation) => match parse_vec3_at(lines, 14) {
                    Err(m) => Err(m),
                    Ok(scale) => Ok(Transform { translation, rotation, scale }),
                },
            },
        }
    }
}

/// The views of a vector of lines.
pub open spec fn lines_view(lines: Seq<String>) -> Seq<Seq<char>> {
    lines.map_values(|s: String| s@)
}

/// Encode `t` as the 17 lines of its savefile.
///
/// The second clause is the round-trip law: for a transform whose float
/// components are all finite, decoding the encoded lines gives the same
/// transform back, bit for bit.
pub fn transform_to_lines(t: &Transform) -> (r: Vec<String>)
    ensures
        lines_view(r@) == transform_lines(*t),
        transform_finite(*t) ==> decode_transform_spec(lines_view(r@)) == Ok::<
            Transform,
            Seq<char>,
        >(*t),
{
    let mut lines: Vec<String> = Vec::new();
    lines.push("v0".to_owned());
    lines.push(String::new());
    lines.push("translation:".to_owned());
    lines.push(fmt_float(t.translation.x));
    lines.push(fmt_float(t.translation.y));
    lines.push(fmt_float(t.translation.z));
    lines.push(String::new());
    lines.push("rotation:".to_owned());
    lines.push(fmt_float(t.rotation.x));
    lines.push(fmt_float(t.rotation.y));
    lines.push(fmt_float(t.rotation.z));
    lines.push(fmt_float(t.rotation.w));
    lines.push(String::new());
    lines.push("scale:".to_owned());
    lines.push(fmt_float(t.scale.x));
    lines.push(fmt_float(t.scale.y));
    lines.push(fmt_float(t.scale.z));
    proof {
        assert(lines_view(lines@) =~= transform_lines(*t));
    }
    lines
}

/// Encode `t` as the full text of its savefile: the 17 lines, each followed
/// by a newline.
///
/// The second clause restates the round-trip law over the encoded lines.
pub fn serialize_transform(t: &Transform) -> (r: String)
    ensures
        r@ == transform_text(*t),
        transform_finite(*t) ==> decode_transform_spec(transform_lines(*t)) == Ok::<
            Transform,
            Seq<char>,
        >(*t),
{
    let lines = transform_to_lines(t);
    let mut text = String::new();
    let mut i: usize = 0;
    while i < lines.len()
        invariant
            i <= lines.len(),
            lines_view(lines@) == transform_lines(*t),
            text@ == join_lines(lines_view(lines@).take(i as int)),
            transform_finite(*t) ==> decode_transform_spec(lines_view(lines@)) == Ok::<
                Transform,
                Seq<char>,
            >(*t),
        decreases lines.len() - i,
    {
        text.append(lines[i].as_str());
        text.append("\n");
        proof {
            let lv = lines_view(lines@);
            assert(lv.take(i + 1).drop_last() =~= lv.take(i as int));
            assert(lv.take(i + 1).last() == lv[i as int]);
        }
        i += 1;
    }
    proof {
        let lv = lines_view(lines@);
        assert(lv.take(lines@.len() as int) =~= lv);
    }
    text
}

/// Read the line at position `i` and parse it into a float bit pattern, as
/// the decoder does for each numeric position.
fn next_float(lines: &Vec<String>, i: usize) -> (r: Result<u32, WhereWasIParseError>)
    ensures
        match parse_line_at(lines_view(lines@), i as int) {
            Ok(bits) => r matches Ok(b) && b == bits,
            Err(m) => r matches Err(e) && e.message@ == m,
        },
{
    if i >= lines.len() {
        Err(WhereWasIParseError::expected_line())
    } else {
        match parse_float(lines[i].as_str()) {
            Ok(bits) => Ok(bits),
            Err(message) => Err(WhereWasIParseError::from_message(message)),
        }
    }
}

/// Decode a sequence of lines (line terminators already stripped, in file
/// order) into a transform.
///
/// The contract pins the whole outcome: the transform on success, and on
/// failure the message of the first failure in reading order — the fixed
/// missing-line message, the wrong-version message carrying the first line,
/// or the float parser's own description of the first bad numeric line.
pub fn deserialize_transform(lines: &Vec<String>) -> (r: Result<
    Transform,
    WhereWasIParseError,
>)
    ensures
        match decode_transform_spec(lines_view(lines@)) {
            Ok(t) => r matches Ok(found) && found == t,
            Err(m) => r matches Err(e) && e.message@ == m,
        },
{
    if lines.len() == 0 {
        return Err(WhereWasIParseError::expected_line());
    }
    let version = &lines[0];
    let marker: String = "v0".to_owned();
    if !version.eq(&marker) {
        return Err(WhereWasIParseError::wrong_version(version.as_str()));
    }
    let tx = match next_float(lines, 3) {
        Ok(b) => b,
        Err(e) => return Err(e),
    };
    let ty = match next_float(lines, 4) {
        Ok(b) => b,
        Err(e) => return Err(e),
    };
    let tz = match next_float(lines, 5) {
        Ok(b) => b,
        Err(e) => return Err(e),
    };
    let rx = match next_float(lines, 8) {
        Ok(b) => b,
        Err(e) => return Err(e),
    };
    let ry = match next_float(lines, 9) {
        Ok(b) => b,
        Err(e) => return Err(e),
    };
    let rz = match next_float(lines, 10) {
        Ok(b) => b,
        Err(e) => return Err(e),
    };
    let rw = match next_float(lines, 11) {
        Ok(b) => b,
        Err(e) => return Err(e),
    };
    let sx = match next_float(lines, 14) {
        Ok(b) => b,
        Err(e) => return Err(e),
    };
    let sy = match next_float(lines, 15) {
        Ok(b) => b,
        Err(e) => return Err(e),
    };
    let sz = match next_float(lines, 16) {
        Ok(b) => b,
        Err(e) => return Err(e),
    };
    Ok(Transform {
        translation: Vec3Bits { x: tx, y: ty, z: tz },
        rotation: QuatBits { x: rx, y: ry, z: rz, w: rw },
        scale: Vec3Bits { x: sx, y: sy, z: sz },
    })
}

/// Version gate: a first line other than the version marker is rejected with
/// the wrong-version message, whatever the remaining lines hold — no numeric
/// line is ever consulted.
pub proof fn lemma_version_gate(lines: Seq<Seq<char>>)
    requires
        lines.len() > 0,
        lines[0] != version_line(),
    ensures
        decode_transform_spec(lines) == Err::<Transform, Seq<char>>(wrong_version_msg(lines[0])),
{
}

/// Truncated input: a sequence with fewer lines than the format requires
/// never decodes.
pub proof fn lemma_truncated_fails(lines: Seq<Seq<char>>)
    requires
        lines.len() < line_count(),
    ensures
        decode_transform_spec(lines) is Err,
{
}

/// Truncated input, exact message: where the version line is right and every
/// numeric line that is present parses, the failure of a short sequence is
/// the fixed missing-line message.
pub proof fn lemma_truncated_missing_line(lines: Seq<Seq<char>>)
    requires
        lines.len() < line_count(),
        lines.len() > 0 ==> lines[0] == version_line(),
        forall|i: int|
            0 <= i < lines.len() && is_numeric_pos(i) ==> (#[trigger] parse_f32_str(
                lines[i],
            )) is Some,
    ensures
        decode_transform_spec(lines) == Err::<Transform, Seq<char>>(missing_line_msg()),
{
}

/// Label leniency: the decoder reads only the version line and the ten
/// numeric lines. Two sequences that agree there decode alike, whatever
/// stands in the blank and label positions and after the last numeric line.
pub proof fn lemma_label_leniency(a: Seq<Seq<char>>, b: Seq<Seq<char>>)
    requires
        a.len() >= line_count(),
        b.len() >= line_count(),
        a[0] == b[0],
        forall|i: int| is_numeric_pos(i) ==> #[trigger] a[i] == b[i],
    ensures
        decode_transform_spec(a) == decode_transform_spec(b),
{
}

} // verus!
