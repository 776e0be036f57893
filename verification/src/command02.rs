//! The 36-byte vendor command frame.
//!
//! Frame layout, in order: frame id (2 bytes, fixed), sequence number
//! (2 bytes), segment size (2 bytes, fixed), checksum (2 bytes), function
//! group (6 bytes), command (6 bytes), appendix (16 bytes, all-zero when
//! not supplied). Field values are not validated here: validity is a
//! property of matching the device's protocol, not of the frame layout.

use vstd::prelude::*;

verus! {

/// The two fixed bytes every frame starts with.
pub open spec fn spec_frame_id() -> Seq<u8> {
    seq![0xaau8, 0x25u8]
}

/// The fixed segment-size field.
pub open spec fn spec_segment_size() -> Seq<u8> {
    seq![0x0cu8, 0x00u8]
}

/// The appendix used when none is supplied: sixteen zero bytes.
pub open spec fn spec_zero_appendix() -> Seq<u8> {
    Seq::new(16, |i: int| 0u8)
}

/// The full frame as the concatenation of its seven fields.
pub open spec fn spec_frame(
    sequence_nr: Seq<u8>,
    checksum: Seq<u8>,
    function_group: Seq<u8>,
    command: Seq<u8>,
    appendix: Seq<u8>,
) -> Seq<u8> {
    spec_frame_id() + sequence_nr + spec_segment_size() + checksum + function_group + command
        + appendix
}

/// Byte-range layout of the frame: with fields of the right widths, the
/// frame is 36 bytes and each field sits at its fixed offset — the frame
/// id at [0:2], the sequence number at [2:4], the segment size at [4:6],
/// the checksum at [6:8], the function group at [8:14], the command at
/// [14:20] and the appendix at [20:36].
pub proof fn lemma_frame_layout(
    sequence_nr: Seq<u8>,
    checksum: Seq<u8>,
    function_group: Seq<u8>,
    command: Seq<u8>,
    appendix: Seq<u8>,
)
    requires
        sequence_nr.len() == 2,
        checksum.len() == 2,
        function_group.len() == 6,
        command.len() == 6,
        appendix.len() == 16,
    ensures
        spec_frame(sequence_nr, checksum, function_group, command, appendix).len() == 36,
        spec_frame(sequence_nr, checksum, function_group, command, appendix).subrange(0, 2)
            == spec_frame_id(),
        spec_frame(sequence_nr, checksum, function_group, command, appendix).subrange(2, 4)
            == sequence_nr,
        spec_frame(sequence_nr, checksum, function_group, command, appendix).subrange(4, 6)
            == spec_segment_size(),
        spec_frame(sequence_nr, checksum, function_group, command, appendix).subrange(6, 8)
            == checksum,
        spec_frame(sequence_nr, checksum, function_group, command, appendix).subrange(8, 14)
            == function_group,
        spec_frame(sequence_nr, checksum, function_group, command, appendix).subrange(14, 20)
            == command,
        spec_frame(sequence_nr, checksum, function_group, command, appendix).subrange(20, 36)
            == appendix,
{
    let frame = spec_frame(sequence_nr, checksum, function_group, command, appendix);
    assert(frame.subrange(0, 2) =~= spec_frame_id());
    assert(frame.subrange(2, 4) =~= sequence_nr);
    assert(frame.subrange(4, 6) =~= spec_segment_size());
    assert(frame.subrange(6, 8) =~= checksum);
    assert(frame.subrange(8, 14) =~= function_group);
    assert(frame.subrange(14, 20) =~= command);
    assert(frame.subrange(20, 36) =~= appendix);
}

/// Appends every byte of `bytes` to `out`, in order.
pub fn push_bytes<const N: usize>(out: &mut Vec<u8>, bytes: &[u8; N])
    ensures
        final(out)@ == old(out)@ + bytes@,
{
    let mut i: usize = 0;
    while i < N
        invariant
            i <= N,
            out@ == old(out)@ + bytes@.subrange(0, i as int),
        decreases N - i,
    {
        out.push(bytes[i]);
        assert(bytes@.subrange(0, i + 1) =~= bytes@.subrange(0, i as int).push(bytes@[i as int]));
        i += 1;
    }
    assert(bytes@.subrange(0, N as int) =~= bytes@);
}

/// Appends `n` zero bytes to `out`.
pub fn push_zeros(out: &mut Vec<u8>, n: usize)
    ensures
        final(out)@ == old(out)@ + Seq::new(n as nat, |i: int| 0u8),
{
    let mut i: usize = 0;
    while i < n
        invariant
            i <= n,
            out@ == old(out)@ + Seq::new(i as nat, |j: int| 0u8),
        decreases n - i,
    {
        out.push(0u8);
        assert(Seq::new((i + 1) as nat, |j: int| 0u8) =~= Seq::new(i as nat, |j: int| 0u8).push(
            0u8,
        ));
        i += 1;
    }
}

/// Builder for one command frame.
///
/// All fields except the appendix are mandatory; [`Command02::build`]
/// demands that they have been supplied.
pub struct Command02 {
    pub function_group: Option<[u8; 6]>,
    pub sequence_nr: Option<[u8; 2]>,
    pub checksum: Option<[u8; 2]>,
    pub command: Option<[u8; 6]>,
    pub appendix: Option<[u8; 16]>,
}

impl Command02 {
    /// An empty builder with no field supplied.
    pub fn new() -> (r: Command02)
        ensures
            r.function_group is None,
            r.sequence_nr is None,
            r.checksum is None,
            r.command is None,
            r.appendix is None,
    {
        Command02 {
            function_group: None,
            sequence_nr: None,
            checksum: None,
            command: None,
            appendix: None,
        }
    }

    /// Supplies the 6-byte function group.
    pub fn function_group(self, function_group: [u8; 6]) -> (r: Command02)
        ensures
            r == (Command02 { function_group: Some(function_group), ..self }),
    {
        Command02 { function_group: Some(function_group), ..self }
    }

    /// Supplies the 2-byte sequence number.
    pub fn sequence_nr(self, sequence_number: [u8; 2]) -> (r: Command02)
        ensures
            r == (Command02 { sequence_nr: Some(sequence_number), ..self }),
    {
        Command02 { sequence_nr: Some(sequence_number), ..self }
    }

    /// Supplies the 2-byte checksum.
    pub fn checksum(self, checksum: [u8; 2]) -> (r: Command02)
        ensures
            r == (Command02 { checksum: Some(checksum), ..self }),
    {
        Command02 { checksum: Some(checksum), ..self }
    }

    /// Supplies the 6-byte command.
    pub fn command(self, cmd: [u8; 6]) -> (r: Command02)
        ensures
            r == (Command02 { command: Some(cmd), ..self }),
    {
        Command02 { command: Some(cmd), ..self }
    }

    /// Supplies the 16-byte appendix.
    pub fn appendix(self, app: [u8; 16]) -> (r: Command02)
        ensures
            r == (Command02 { appendix: Some(app), ..self }),
    {
        Command02 { appendix: Some(app), ..self }
    }

    /// The frame this builder stands for, once the mandatory fields are
    /// supplied.
    pub open spec fn spec_build(self) -> Seq<u8> {
        spec_frame(
            self.sequence_nr->Some_0@,
            self.checksum->Some_0@,
            self.function_group->Some_0@,
            self.command->Some_0@,
            if self.appendix is Some {
                self.appendix->Some_0@
            } else {
                spec_zero_appendix()
            },
        )
    }

    /// Assembles the 36-byte frame.
    ///
    /// Omitting a mandatory field is a protocol-constant mismatch at the
    /// call site, never a runtime condition, so the builder demands them
    /// up front.
    pub fn build(self) -> (r: Vec<u8>)
        requires
            self.function_group is Some,
            self.sequence_nr is Some,
            self.checksum is Some,
            self.command is Some,
        ensures
            r@ == self.spec_build(),
            r@.len() == 36,
    {
        let mut r: Vec<u8> = Vec::new();
        let frame_id: [u8; 2] = [0xaa, 0x25];
        let segment_size: [u8; 2] = [0x0c, 0x00];

        push_bytes(&mut r, &frame_id);
        assert(frame_id@ =~= spec_frame_id());
        let sequence_nr = self.sequence_nr.unwrap();
        push_bytes(&mut r, &sequence_nr);
        push_bytes(&mut r, &segment_size);
        assert(segment_size@ =~= spec_segment_size());
        let checksum = self.checksum.unwrap();
        push_bytes(&mut r, &checksum);
        let function_group = self.function_group.unwrap();
        push_bytes(&mut r, &function_group);
        let command = self.command.unwrap();
        push_bytes(&mut r, &command);
        match self.appendix {
            Some(app) => push_bytes(&mut r, &app),
            None => push_zeros(&mut r, 16),
        }
        assert(r@ =~= self.spec_build());
        r
    }
}

/// Assembles a frame from its fields in one call; the appendix defaults
/// to all-zero when absent.
pub fn command02(
    function_group: [u8; 6],
    sequence_nr: [u8; 2],
    checksum: [u8; 2],
    command: [u8; 6],
    appendix: Option<[u8; 16]>,
) -> (r: Vec<u8>)
    ensures
        r@ == spec_frame(
            sequence_nr@,
            checksum@,
            function_group@,
            command@,
            if appendix is Some {
                appendix->Some_0@
            } else {
                spec_zero_appendix()
            },
        ),
        r@.len() == 36,
{
    let mut builder = Command02::new().function_group(function_group).sequence_nr(
        sequence_nr,
    ).checksum(checksum).command(command);
    if let Some(app) = appendix {
        builder = builder.appendix(app);
    }
    builder.build()
}

} // verus!
