use vstd::prelude::*;

use crate::function_code::ModbusFunctionCode;

verus! {

/// Size in bytes of the fixed part of a message: transaction id, protocol id,
/// length, unit id and function code.
pub const HEADER_LEN: usize = 8;

/// The two bytes of `v`, most significant first.
pub open spec fn be16(v: u16) -> Seq<u8> {
    seq![(v / 256) as u8, (v % 256) as u8]
}

/// The big-endian 16-bit value of the two bytes of `b` at offset `at`.
pub open spec fn read_be16(b: Seq<u8>, at: int) -> u16 {
    (b[at] as int * 256 + b[at + 1] as int) as u16
}

/// The fields of a message, as plain values.
pub struct ModbusView {
    pub tid: u16,
    pub pid: u16,
    pub length: u16,
    pub uid: u8,
    pub function_code: u8,
    pub payload: Seq<u8>,
}

/// The bytes that stand on the wire for the message `m`.
pub open spec fn wire(m: ModbusView) -> Seq<u8> {
    be16(m.tid) + be16(m.pid) + be16(m.length) + seq![m.uid, m.function_code] + m.payload
}

/// The message that a buffer of at least `HEADER_LEN` bytes holds: the fixed
/// fields from its first eight bytes, and everything after them as payload.
pub open spec fn parse(b: Seq<u8>) -> ModbusView {
    ModbusView {
        tid: read_be16(b, 0),
        pid: read_be16(b, 2),
        length: read_be16(b, 4),
        uid: b[6],
        function_code: b[7],
        payload: b.subrange(8, b.len() as int),
    }
}

/// The one way in which decoding can fail.
#[derive(PartialEq, Eq, Structural, Clone, Copy, Debug)]
pub enum ModbusError {
    /// The buffer is shorter than the fixed header.
    TruncatedInput,
}

/// A Modbus over TCP message. The `length` field is carried as given: it is
/// not checked against the size of the payload.
#[derive(Clone, Debug)]
pub struct Modbus {
    pub tid: u16,
    pub pid: u16,
    pub length: u16,
    pub uid: u8,
    pub function_code: ModbusFunctionCode,
    pub payload: Vec<u8>,
}

impl View for Modbus {
    type V = ModbusView;

    open spec fn view(&self) -> ModbusView {
        ModbusView {
            tid: self.tid,
            pid: self.pid,
            length: self.length,
            uid: self.uid,
            function_code: self.function_code@,
            payload: self.payload@,
        }
    }
}

/// Decoding what encoding wrote gives back every field of the message,
/// payload bytes included.
pub proof fn lemma_round_trip(m: ModbusView)
    ensures
        wire(m).len() >= HEADER_LEN,
        parse(wire(m)) == m,
{
    let b = wire(m);
    assert(parse(b).payload =~= m.payload);
    assert(parse(b).tid == m.tid);
    assert(parse(b).pid == m.pid);
    assert(parse(b).length == m.length);
}

/// Encoding what decoding read gives back the buffer, byte for byte.
pub proof fn lemma_reencode(b: Seq<u8>)
    requires
        b.len() >= HEADER_LEN,
    ensures
        wire(parse(b)) == b,
{
    let m = parse(b);
    assert(be16(m.tid) =~= b.subrange(0, 2));
    assert(be16(m.pid) =~= b.subrange(2, 4));
    assert(be16(m.length) =~= b.subrange(4, 6));
    assert(wire(m) =~= b);
}

/// Appends the two bytes of `v` to `out`, most significant first.
fn push_be16(out: &mut Vec<u8>, v: u16)
    ensures
        final(out)@ == old(out)@ + be16(v),
{
    out.push((v / 256) as u8);
    out.push((v % 256) as u8);
    assert(final(out)@ =~= old(out)@ + be16(v));
}

/// The big-endian 16-bit value of `b[at]` and `b[at + 1]`.
fn get_be16(b: &[u8], at: usize) -> (r: u16)
    requires
        at + 1 < b@.len(),
    ensures
        r == read_be16(b@, at as int),
{
    (b[at] as u16) * 256 + (b[at + 1] as u16)
}

impl Modbus {
    /// The size of the smallest buffer that decodes: the fixed header.
    pub fn minimum_packet_size() -> (r: usize)
        ensures
            r == HEADER_LEN,
    {
        HEADER_LEN
    }

    /// Reads a message from `buf`: the fixed fields big-endian from its first
    /// eight bytes, and the rest of the buffer, whatever its size, as payload.
    /// Fails exactly when `buf` is shorter than the fixed header.
    pub fn decode(buf: &[u8]) -> (r: Result<Modbus, ModbusError>)
        ensures
            buf@.len() < HEADER_LEN <==> r is Err,
            r matches Err(e) ==> e == ModbusError::TruncatedInput,
            r matches Ok(m) ==> m@ == parse(buf@),
    {
        if buf.len() < HEADER_LEN {
            return Err(ModbusError::TruncatedInput);
        }
        let mut payload: Vec<u8> = Vec::new();
        let mut i: usize = HEADER_LEN;
        while i < buf.len()
            invariant
                HEADER_LEN <= i <= buf@.len(),
                payload@ == buf@.subrange(8, i as int),
            decreases buf@.len() - i,
        {
            payload.push(buf[i]);
            i = i + 1;
            assert(payload@ =~= buf@.subrange(8, i as int));
        }
        let m = Modbus {
            tid: get_be16(buf, 0),
            pid: get_be16(buf, 2),
            length: get_be16(buf, 4),
            uid: buf[6],
            function_code: ModbusFunctionCode::from_raw(buf[7]),
            payload,
        };
        Ok(m)
    }

    /// Writes the message: the fixed fields big-endian, in order, then the
    /// payload verbatim. The result is `HEADER_LEN` bytes longer than the
    /// payload.
    pub fn encode(&self) -> (r: Vec<u8>)
        ensures
            r@ == wire(self@),
            r@.len() == HEADER_LEN + self.payload@.len(),
    {
        let mut out: Vec<u8> = Vec::new();
        push_be16(&mut out, self.tid);
        push_be16(&mut out, self.pid);
        push_be16(&mut out, self.length);
        out.push(self.uid);
        out.push(self.function_code.to_raw());
        let ghost head = out@;
        assert(head =~= be16(self.tid) + be16(self.pid) + be16(self.length) + seq![self.uid, self.function_code@]);
        let mut i: usize = 0;
        while i < self.payload.len()
            invariant
                i <= self.payload@.len(),
                out@ == head + self.payload@.subrange(0, i as int),
            decreases self.payload@.len() - i,
        {
            out.push(self.payload[i]);
            i = i + 1;
            assert(out@ =~= head + self.payload@.subrange(0, i as int));
        }
        assert(self.payload@.subrange(0, i as int) =~= self.payload@);
        out
    }

    /// A message from its field values, taken as they are.
    pub fn new(
        tid: u16,
        pid: u16,
        length: u16,
        uid: u8,
        function_code: ModbusFunctionCode,
        payload: Vec<u8>,
    ) -> (r: Modbus)
        ensures
            r@ == (ModbusView {
                tid,
                pid,
                length,
                uid,
                function_code: function_code@,
                payload: payload@,
            }),
    {
        Modbus { tid, pid, length, uid, function_code, payload }
    }

    /// The transaction id.
    pub fn get_tid(&self) -> (r: u16)
        ensures
            r == self.tid,
    {
        self.tid
    }

    /// The protocol id.
    pub fn get_pid(&self) -> (r: u16)
        ensures
            r == self.pid,
    {
        self.pid
    }

    /// The declared length of unit id, function code and payload.
    pub fn get_length(&self) -> (r: u16)
        ensures
            r == self.length,
    {
        self.length
    }

    /// The unit id.
    pub fn get_uid(&self) -> (r: u8)
        ensures
            r == self.uid,
    {
        self.uid
    }

    /// The function code.
    pub fn get_function_code(&self) -> (r: ModbusFunctionCode)
        ensures
            r == self.function_code,
    {
        self.function_code
    }

    /// The payload bytes.
    pub fn payload(&self) -> (r: &[u8])
        ensures
            r@ == self.payload@,
    {
        self.payload.as_slice()
    }

    /// The number of payload bytes actually held, to hold against `length`.
    pub fn payload_len(&self) -> (r: usize)
        ensures
            r == self.payload@.len(),
    {
        self.payload.len()
    }

    /// Replaces the transaction id.
    pub fn set_tid(&mut self, v: u16)
        ensures
            final(self)@ == (ModbusView { tid: v, ..old(self)@ }),
    {
        self.tid = v;
    }

    /// Replaces the protocol id.
    pub fn set_pid(&mut self, v: u16)
        ensures
            final(self)@ == (ModbusView { pid: v, ..old(self)@ }),
    {
        self.pid = v;
    }

    /// Replaces the declared length.
    pub fn set_length(&mut self, v: u16)
        ensures
            final(self)@ == (ModbusView { length: v, ..old(self)@ }),
    {
        self.length = v;
    }

    /// Replaces the unit id.
    pub fn set_uid(&mut self, v: u8)
        ensures
            final(self)@ == (ModbusView { uid: v, ..old(self)@ }),
    {
        self.uid = v;
    }

    /// Replaces the function code.
    pub fn set_function_code(&mut self, v: ModbusFunctionCode)
        ensures
            final(self)@ == (ModbusView { function_code: v@, ..old(self)@ }),
    {
        self.function_code = v;
    }

    /// Replaces the payload; the declared length is left as it was.
    pub fn set_payload(&mut self, v: Vec<u8>)
        ensures
            final(self)@ == (ModbusView { payload: v@, ..old(self)@ }),
    {
        self.payload = v;
    }
}

} // verus!
