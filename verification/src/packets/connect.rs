use vstd::prelude::*;
use vstd::string::StringSliceAdditionalSpecFns;

use crate::codec::encoding::{binary_steps, enc_u16, str_steps, WriteStep};
use crate::codec::mqtt_reader::{
    advanced, lemma_advanced_trans, parse_binary, parse_str, parse_u16, parse_u8, MqttBufReader,
};
use crate::codec::mqtt_writer::{put_outcome, MqttWriter};
use crate::codec::write::{lemma_put_nothing, lemma_put_stop, lemma_put_then};
use crate::data::packet_type::PacketType;
use crate::data::property::{
    parse_property_list, properties_view, ConnectProperty, PropertyContext, PropertyView,
    WillProperty,
};
use crate::data::quality_of_service::{qos_from_value, qos_value, QualityOfService};
use crate::codec::encoding::{steps_bytes, steps_failure};
use crate::codec::mqtt_reader::{lemma_str_utf8_valid, utf8_valid};
use crate::codec::roundtrip::{
    lemma_binary_steps_roundtrip, lemma_steps_append, lemma_steps_one, lemma_str_steps_roundtrip,
    lemma_uint_steps_roundtrip,
};
use crate::error::{PacketReadError, PacketWriteError};
use crate::packets::laws::{
    lemma_packet_body_written, lemma_packet_roundtrip, lemma_property_list_roundtrip,
    properties_accepted,
};
use crate::packets::packet::{
    packet_steps, parse_packet, property_list_steps, put_properties, read_packet, Packet, PacketRead,
    PacketWrite, KEEP_ALIVE_DEFAULT, PROTOCOL_NAME, PROTOCOL_VERSION_5,
};

verus! {

/// The bytes of the protocol name "MQTT"
pub open spec fn protocol_name_bytes() -> Seq<u8> {
    seq![0x4du8, 0x51u8, 0x54u8, 0x54u8]
}

/// The protocol name constant is "MQTT".
pub proof fn lemma_protocol_name_bytes()
    ensures
        PROTOCOL_NAME.spec_bytes() == protocol_name_bytes(),
{
    reveal_strlit("MQTT");
    broadcast use vstd::string::is_ascii_spec_bytes;
    assert(vstd::string::is_ascii(PROTOCOL_NAME));
    assert(PROTOCOL_NAME.spec_bytes() =~= protocol_name_bytes());
}

/// The will of a Connect packet as a mathematical value
pub struct WillView {
    pub qos: QualityOfService,
    pub retain: bool,
    pub topic_name: Seq<u8>,
    pub payload: Seq<u8>,
    pub properties: Seq<PropertyView>,
}

/// A Connect packet as a mathematical value
pub struct ConnectView {
    pub keep_alive: u16,
    pub username: Option<Seq<u8>>,
    pub password: Option<Seq<u8>>,
    pub client_id: Seq<u8>,
    pub clean_start: bool,
    pub will: Option<WillView>,
    pub properties: Seq<PropertyView>,
}

/// The connect flags byte: bit 0 reserved as 0, clean start in bit 1, will present in bit
/// 2, the will's quality of service in bits 3 and 4 and its retain flag in bit 5, password
/// present in bit 6 and username present in bit 7
#[verifier::opaque]
pub open spec fn connect_flags_byte(v: ConnectView) -> u8 {
    ((if v.clean_start { 2int } else { 0int }) + (match v.will {
        Some(w) => 4 + 8 * qos_value(w.qos) + (if w.retain { 32int } else { 0int }),
        None => 0int,
    }) + (if v.password is Some { 64int } else { 0int }) + (if v.username is Some {
        128int
    } else {
        0int
    })) as u8
}

/// The steps of writing the will of a Connect packet: its property list, topic name and
/// payload; nothing without a will
pub open spec fn will_steps(will: Option<WillView>) -> Seq<WriteStep> {
    match will {
        Some(w) => property_list_steps(w.properties) + str_steps(w.topic_name) + binary_steps(w.payload),
        None => Seq::empty(),
    }
}

/// The steps of writing an optional string: nothing when absent
pub open spec fn optional_str_steps(v: Option<Seq<u8>>) -> Seq<WriteStep> {
    match v {
        Some(b) => str_steps(b),
        None => Seq::empty(),
    }
}

/// The steps of writing optional binary data: nothing when absent
pub open spec fn optional_binary_steps(v: Option<Seq<u8>>) -> Seq<WriteStep> {
    match v {
        Some(b) => binary_steps(b),
        None => Seq::empty(),
    }
}

/// The steps of writing the fixed part of the variable header of a Connect packet (the
/// protocol name, the protocol version, the connect flags and the keep alive), then its
/// property list and client identifier
pub open spec fn connect_front_steps(flags: u8, keep_alive: u16, properties: Seq<PropertyView>, client_id: Seq<u8>) -> Seq<WriteStep> {
    str_steps(protocol_name_bytes()) + seq![
        WriteStep::Bytes(seq![PROTOCOL_VERSION_5]),
        WriteStep::Bytes(seq![flags]),
        WriteStep::Bytes(enc_u16(keep_alive)),
    ] + property_list_steps(properties) + str_steps(client_id)
}

/// The steps of writing the username and the password of a Connect packet, each if present
pub open spec fn credentials_steps(username: Option<Seq<u8>>, password: Option<Seq<u8>>) -> Seq<WriteStep> {
    optional_str_steps(username) + optional_binary_steps(password)
}

/// The steps of writing the variable header and payload of a Connect packet: the fixed part
/// of the header, the property list, the client identifier, the will, the username and the
/// password
pub open spec fn connect_steps(v: ConnectView) -> Seq<WriteStep> {
    connect_front_steps(connect_flags_byte(v), v.keep_alive, v.properties, v.client_id) + will_steps(
        v.will,
    ) + credentials_steps(v.username, v.password)
}

/// Reading the fixed part of the variable header of a Connect packet: the protocol name
/// and version, which must be "MQTT" and 5 (otherwise
/// [PacketReadError::UnsupportedProtocolVersion]), the connect flags, whose reserved bit 0
/// must be clear (otherwise [PacketReadError::InvalidConnectFlags]), and the keep alive
pub open spec fn parse_connect_header(s: Seq<u8>) -> Result<((u8, u16), nat), PacketReadError> {
    match parse_str(s) {
        Err(e) => Err(e),
        Ok((name, n1)) => match parse_u8(s.skip(n1 as int)) {
            Err(e) => Err(e),
            Ok((version, n2)) => if name != protocol_name_bytes() || version != PROTOCOL_VERSION_5 {
                Err(PacketReadError::UnsupportedProtocolVersion)
            } else {
                match parse_u8(s.skip((n1 + n2) as int)) {
                    Err(e) => Err(e),
                    Ok((flags, n3)) => if flags % 2 == 1 {
                        Err(PacketReadError::InvalidConnectFlags)
                    } else {
                        match parse_u16(s.skip((n1 + n2 + n3) as int)) {
                            Err(e) => Err(e),
                            Ok((keep_alive, n4)) => Ok(((flags, keep_alive), n1 + n2 + n3 + n4)),
                        }
                    },
                }
            },
        },
    }
}

/// Reading the will of a Connect packet with connect flags `flags`: when the will flag is
/// set, the will's quality of service from the flags must be valid (otherwise
/// [PacketReadError::InvalidQosValue]) and its property list, topic name and payload are
/// read; otherwise the will quality of service bits must be 0 (otherwise
/// [PacketReadError::WillQosSpecifiedWithoutWill]) and the will retain bit clear (otherwise
/// [PacketReadError::WillRetainSpecifiedWithoutWill])
pub open spec fn parse_will(s: Seq<u8>, flags: u8, capacity: nat) -> Result<(Option<WillView>, nat), PacketReadError> {
    let qos_bits = (flags / 8) % 4;
    let retain = (flags / 32) % 2 == 1;
    if (flags / 4) % 2 == 1 {
        match qos_from_value(qos_bits) {
            None => Err(PacketReadError::InvalidQosValue),
            Some(qos) => match parse_property_list(s, PropertyContext::Will, capacity) {
                Err(e) => Err(e),
                Ok((properties, n1)) => match parse_str(s.skip(n1 as int)) {
                    Err(e) => Err(e),
                    Ok((topic_name, n2)) => match parse_binary(s.skip((n1 + n2) as int)) {
                        Err(e) => Err(e),
                        Ok((payload, n3)) => Ok((Some(WillView { qos, retain, topic_name, payload, properties }), n1 + n2 + n3)),
                    },
                },
            },
        }
    } else if qos_bits != 0 {
        Err(PacketReadError::WillQosSpecifiedWithoutWill)
    } else if retain {
        Err(PacketReadError::WillRetainSpecifiedWithoutWill)
    } else {
        Ok((None, 0))
    }
}

/// Reading a string when `present`, otherwise nothing
pub open spec fn parse_optional_str(s: Seq<u8>, present: bool) -> Result<(Option<Seq<u8>>, nat), PacketReadError> {
    if present {
        match parse_str(s) {
            Err(e) => Err(e),
            Ok((v, n)) => Ok((Some(v), n)),
        }
    } else {
        Ok((None, 0))
    }
}

/// Reading binary data when `present`, otherwise nothing
pub open spec fn parse_optional_binary(s: Seq<u8>, present: bool) -> Result<(Option<Seq<u8>>, nat), PacketReadError> {
    if present {
        match parse_binary(s) {
            Err(e) => Err(e),
            Ok((v, n)) => Ok((Some(v), n)),
        }
    } else {
        Ok((None, 0))
    }
}

/// Reading the variable header and payload of a Connect packet: the fixed part of the
/// header, the property list, the client identifier, the will, then the username and the
/// password when their flags are set
pub open spec fn parse_connect(s: Seq<u8>, p: nat, w: nat) -> Result<(ConnectView, nat), PacketReadError> {
    match parse_connect_header(s) {
        Err(e) => Err(e),
        Ok(((flags, keep_alive), n1)) => match parse_property_list(s.skip(n1 as int), PropertyContext::Connect, p) {
            Err(e) => Err(e),
            Ok((properties, n2)) => match parse_str(s.skip((n1 + n2) as int)) {
                Err(e) => Err(e),
                Ok((client_id, n3)) => match parse_will(s.skip((n1 + n2 + n3) as int), flags, w) {
                    Err(e) => Err(e),
                    Ok((will, n4)) => match parse_optional_str(s.skip((n1 + n2 + n3 + n4) as int), flags / 128 == 1) {
                        Err(e) => Err(e),
                        Ok((username, n5)) => match parse_optional_binary(s.skip((n1 + n2 + n3 + n4 + n5) as int), (flags / 64) % 2 == 1) {
                            Err(e) => Err(e),
                            Ok((password, n6)) => Ok((ConnectView {
                                keep_alive,
                                username,
                                password,
                                client_id,
                                clean_start: (flags / 2) % 2 == 1,
                                will,
                                properties,
                            }, n1 + n2 + n3 + n4 + n5 + n6)),
                        },
                    },
                },
            },
        },
    }
}

/// The will of a Connect packet: a message that the server publishes when the connection
/// ends without a Disconnect packet. `W` is the maximum number of will properties that
/// reading one accepts.
#[derive(Debug, PartialEq)]
pub struct Will<'a, const W: usize> {
    qos: QualityOfService,
    retain: bool,
    topic_name: &'a str,
    payload: &'a [u8],
    properties: Vec<WillProperty<'a>>,
}

impl<'a, const W: usize> View for Will<'a, W> {
    type V = WillView;

    closed spec fn view(&self) -> WillView {
        WillView {
            qos: self.qos,
            retain: self.retain,
            topic_name: self.topic_name.spec_bytes(),
            payload: self.payload@,
            properties: properties_view(self.properties@),
        }
    }
}

impl<'a, const W: usize> Will<'a, W> {
    /// Create a will
    pub fn new(
        qos: QualityOfService,
        retain: bool,
        topic_name: &'a str,
        payload: &'a [u8],
        properties: Vec<WillProperty<'a>>,
    ) -> (r: Self)
        ensures
            r@ == (WillView {
                qos,
                retain,
                topic_name: topic_name.spec_bytes(),
                payload: payload@,
                properties: properties_view(properties@),
            }),
    {
        Will { qos, retain, topic_name, payload, properties }
    }
}

/// A Connect packet, the first packet a client sends, asking a server for a connection.
/// `P` is the maximum number of properties, and `WP` that of will properties, that reading
/// one accepts.
#[derive(Debug, PartialEq)]
pub struct Connect<'a, const P: usize, const WP: usize> {
    keep_alive: u16,
    username: Option<&'a str>,
    password: Option<&'a [u8]>,
    client_id: &'a str,
    clean_start: bool,
    will: Option<Will<'a, WP>>,
    pub properties: Vec<ConnectProperty<'a>>,
}

/// The view of an optional string
pub open spec fn optional_str_view(v: Option<&str>) -> Option<Seq<u8>> {
    match v {
        Some(s) => Some(s.spec_bytes()),
        None => None,
    }
}

/// The view of optional binary data
pub open spec fn optional_binary_view(v: Option<&[u8]>) -> Option<Seq<u8>> {
    match v {
        Some(b) => Some(b@),
        None => None,
    }
}

/// The view of an optional will
pub open spec fn optional_will_view<const W: usize>(v: Option<Will<W>>) -> Option<WillView> {
    match v {
        Some(w) => Some(w@),
        None => None,
    }
}

impl<'a, const P: usize, const WP: usize> View for Connect<'a, P, WP> {
    type V = ConnectView;

    closed spec fn view(&self) -> ConnectView {
        ConnectView {
            keep_alive: self.keep_alive,
            username: optional_str_view(self.username),
            password: optional_binary_view(self.password),
            client_id: self.client_id.spec_bytes(),
            clean_start: self.clean_start,
            will: optional_will_view(self.will),
            properties: properties_view(self.properties@),
        }
    }
}

impl<'a> Connect<'a, 0, 0> {
    /// A Connect packet with a client identifier and nothing else: no username or
    /// password, the default keep alive, a clean start, no will and no properties
    pub fn unauthenticated(client_id: &'a str) -> (r: Connect<'a, 0, 0>)
        ensures
            r@ == (ConnectView {
                keep_alive: KEEP_ALIVE_DEFAULT,
                username: None,
                password: None,
                client_id: client_id.spec_bytes(),
                clean_start: true,
                will: None,
                properties: Seq::empty(),
            }),
    {
        let r = Connect {
            keep_alive: KEEP_ALIVE_DEFAULT,
            username: None,
            password: None,
            client_id,
            clean_start: true,
            will: None,
            properties: Vec::new(),
        };
        assert(properties_view(r.properties@) =~= Seq::<PropertyView>::empty());
        r
    }
}

impl<'a, const P: usize, const WP: usize> Connect<'a, P, WP> {
    /// Create a packet
    pub fn new(
        keep_alive: u16,
        username: Option<&'a str>,
        password: Option<&'a [u8]>,
        client_id: &'a str,
        clean_start: bool,
        will: Option<Will<'a, WP>>,
        properties: Vec<ConnectProperty<'a>>,
    ) -> (r: Self)
        ensures
            r@ == (ConnectView {
                keep_alive,
                username: optional_str_view(username),
                password: optional_binary_view(password),
                client_id: client_id.spec_bytes(),
                clean_start,
                will: optional_will_view(will),
                properties: properties_view(properties@),
            }),
    {
        Connect { keep_alive, username, password, client_id, clean_start, will, properties }
    }

    /// The connect flags byte
    pub fn connect_flags(&self) -> (r: u8)
        ensures
            r == connect_flags_byte(self@),
    {
        proof {
            reveal(connect_flags_byte);
        }
        let mut flags: u8 = 0;
        if self.clean_start {
            flags = flags + 2;
        }
        match &self.will {
            Some(will) => {
                flags = flags + 4 + 8 * will.qos.value();
                if will.retain {
                    flags = flags + 32;
                }
            },
            None => {},
        }
        if self.password.is_some() {
            flags = flags + 64;
        }
        if self.username.is_some() {
            flags = flags + 128;
        }
        flags
    }

    /// The keep alive interval in seconds
    pub fn keep_alive(&self) -> (r: u16)
        ensures
            r == self@.keep_alive,
    {
        self.keep_alive
    }

    /// Whether the connection starts a new session
    pub fn clean_start(&self) -> (r: bool)
        ensures
            r == self@.clean_start,
    {
        self.clean_start
    }

    /// Read a whole Connect packet
    pub fn read(reader: &mut MqttBufReader<'a>) -> (r: Result<Self, PacketReadError>)
        ensures
            final(reader).data() == old(reader).data(),
            match parse_packet::<Self>(old(reader).rest()) {
                Ok((v, n)) => r is Ok && r->Ok_0@ == v && advanced(*old(reader), *final(reader), n),
                Err(e) => r == Err::<Self, PacketReadError>(e),
            },
    {
        read_packet(reader)
    }
}

impl<'a, const P: usize, const WP: usize> Packet for Connect<'a, P, WP> {
    open spec fn spec_packet_type() -> PacketType {
        PacketType::Connect
    }

    fn packet_type(&self) -> (r: PacketType) {
        PacketType::Connect
    }
}

/// Put the fixed part of the variable header of a Connect packet
fn put_connect_header<W: MqttWriter>(writer: &mut W, flags: u8, keep_alive: u16) -> (r: Result<(), PacketWriteError>)
    ensures
        put_outcome(
            old(writer).written(),
            old(writer).room(),
            final(writer).written(),
            final(writer).room(),
            r,
            str_steps(protocol_name_bytes()) + seq![
                WriteStep::Bytes(seq![PROTOCOL_VERSION_5]),
                WriteStep::Bytes(seq![flags]),
                WriteStep::Bytes(enc_u16(keep_alive)),
            ],
        ),
{
    let ghost w0 = writer.written();
    let ghost m0 = writer.room();
    let ghost a = str_steps(protocol_name_bytes());
    let ghost b = seq![WriteStep::Bytes(seq![PROTOCOL_VERSION_5])];
    let ghost c = seq![WriteStep::Bytes(seq![flags])];
    let ghost d = seq![WriteStep::Bytes(enc_u16(keep_alive))];
    assert(b + c + d =~= seq![
        WriteStep::Bytes(seq![PROTOCOL_VERSION_5]),
        WriteStep::Bytes(seq![flags]),
        WriteStep::Bytes(enc_u16(keep_alive)),
    ]);
    proof {
        lemma_protocol_name_bytes();
    }
    let r1 = writer.put_str(PROTOCOL_NAME);
    let ghost w1 = writer.written();
    let ghost m1 = writer.room();
    if r1.is_err() {
        proof {
            lemma_put_stop(w0, m0, w1, m1, r1, a, b + c + d);
        }
        return r1;
    }
    let r2 = writer.put_u8(PROTOCOL_VERSION_5);
    let ghost w2 = writer.written();
    let ghost m2 = writer.room();
    proof {
        lemma_put_then(w0, m0, w1, m1, r1, a, w2, m2, r2, b);
    }
    if r2.is_err() {
        proof {
            lemma_put_stop(w0, m0, w2, m2, r2, a + b, c + d);
            assert(a + b + (c + d) =~= a + (b + c + d));
        }
        return r2;
    }
    let r3 = writer.put_u8(flags);
    let ghost w3 = writer.written();
    let ghost m3 = writer.room();
    proof {
        lemma_put_then(w0, m0, w2, m2, r2, a + b, w3, m3, r3, c);
    }
    if r3.is_err() {
        proof {
            lemma_put_stop(w0, m0, w3, m3, r3, a + b + c, d);
            assert(a + b + c + d =~= a + (b + c + d));
        }
        return r3;
    }
    let r4 = writer.put_u16(keep_alive);
    proof {
        lemma_put_then(w0, m0, w3, m3, r3, a + b + c, writer.written(), writer.room(), r4, d);
        assert(a + b + c + d =~= a + (b + c + d));
    }
    r4
}

/// Put the will of a Connect packet, if any
fn put_will<W: MqttWriter, const N: usize>(writer: &mut W, will: &Option<Will<N>>) -> (r: Result<(), PacketWriteError>)
    ensures
        put_outcome(
            old(writer).written(),
            old(writer).room(),
            final(writer).written(),
            final(writer).room(),
            r,
            will_steps(optional_will_view(*will)),
        ),
{
    let ghost w0 = writer.written();
    let ghost m0 = writer.room();
    match will {
        None => {
            proof {
                lemma_put_nothing(w0, m0);
            }
            Ok(())
        },
        Some(will) => {
            let ghost v = will@;
            let ghost a = property_list_steps(v.properties);
            let ghost b = str_steps(v.topic_name);
            let ghost c = binary_steps(v.payload);
            let r1 = put_properties(writer, &will.properties);
            let ghost w1 = writer.written();
            let ghost m1 = writer.room();
            if r1.is_err() {
                proof {
                    lemma_put_stop(w0, m0, w1, m1, r1, a, b + c);
                    assert(a + (b + c) =~= a + b + c);
                }
                return r1;
            }
            let r2 = writer.put_str(will.topic_name);
            let ghost w2 = writer.written();
            let ghost m2 = writer.room();
            proof {
                lemma_put_then(w0, m0, w1, m1, r1, a, w2, m2, r2, b);
            }
            if r2.is_err() {
                proof {
                    lemma_put_stop(w0, m0, w2, m2, r2, a + b, c);
                }
                return r2;
            }
            let r3 = writer.put_binary_data(will.payload);
            proof {
                lemma_put_then(w0, m0, w2, m2, r2, a + b, writer.written(), writer.room(), r3, c);
            }
            r3
        },
    }
}

impl<'a, const P: usize, const WP: usize> PacketWrite for Connect<'a, P, WP> {
    open spec fn spec_first_byte(&self) -> u8 {
        0x10
    }

    open spec fn body_steps(&self) -> Seq<WriteStep> {
        connect_steps(self@)
    }

    fn fixed_header_first_byte(&self) -> (r: u8) {
        0x10
    }

    fn put_variable_header_and_payload<W: MqttWriter>(&self, writer: &mut W) -> (r: Result<(), PacketWriteError>) {
        let ghost w0 = writer.written();
        let ghost m0 = writer.room();
        let ghost v = self@;
        let ghost front = connect_front_steps(connect_flags_byte(v), v.keep_alive, v.properties, v.client_id);
        let ghost d = will_steps(v.will);
        let ghost ef = credentials_steps(v.username, v.password);
        let r1 = put_connect_front(writer, self.connect_flags(), self.keep_alive, &self.properties, self.client_id);
        let ghost w1 = writer.written();
        let ghost m1 = writer.room();
        if r1.is_err() {
            proof {
                lemma_put_stop(w0, m0, w1, m1, r1, front, d + ef);
                assert(front + (d + ef) =~= front + d + ef);
                assert(connect_steps(v) == front + d + ef);
            }
            return r1;
        }
        let r2 = put_will(writer, &self.will);
        let ghost w2 = writer.written();
        let ghost m2 = writer.room();
        proof {
            lemma_put_then(w0, m0, w1, m1, r1, front, w2, m2, r2, d);
        }
        if r2.is_err() {
            proof {
                lemma_put_stop(w0, m0, w2, m2, r2, front + d, ef);
            }
            return r2;
        }
        let r3 = put_credentials(writer, self.username, self.password);
        proof {
            lemma_put_then(w0, m0, w2, m2, r2, front + d, writer.written(), writer.room(), r3, ef);
        }
        r3
    }
}

/// Put the fixed part of the variable header, the property list and the client identifier
/// of a Connect packet
fn put_connect_front<W: MqttWriter>(writer: &mut W, flags: u8, keep_alive: u16, properties: &Vec<ConnectProperty>, client_id: &str) -> (r: Result<(), PacketWriteError>)
    ensures
        put_outcome(
            old(writer).written(),
            old(writer).room(),
            final(writer).written(),
            final(writer).room(),
            r,
            connect_front_steps(flags, keep_alive, properties_view(properties@), client_id.spec_bytes()),
        ),
{
    let ghost w0 = writer.written();
    let ghost m0 = writer.room();
    let ghost a = str_steps(protocol_name_bytes()) + seq![
        WriteStep::Bytes(seq![PROTOCOL_VERSION_5]),
        WriteStep::Bytes(seq![flags]),
        WriteStep::Bytes(enc_u16(keep_alive)),
    ];
    let ghost b = property_list_steps(properties_view(properties@));
    let ghost c = str_steps(client_id.spec_bytes());
    let r1 = put_connect_header(writer, flags, keep_alive);
    let ghost w1 = writer.written();
    let ghost m1 = writer.room();
    if r1.is_err() {
        proof {
            lemma_put_stop(w0, m0, w1, m1, r1, a, b + c);
            assert(a + (b + c) =~= a + b + c);
        }
        return r1;
    }
    let r2 = put_properties(writer, properties);
    let ghost w2 = writer.written();
    let ghost m2 = writer.room();
    proof {
        lemma_put_then(w0, m0, w1, m1, r1, a, w2, m2, r2, b);
    }
    if r2.is_err() {
        proof {
            lemma_put_stop(w0, m0, w2, m2, r2, a + b, c);
        }
        return r2;
    }
    let r3 = writer.put_str(client_id);
    proof {
        lemma_put_then(w0, m0, w2, m2, r2, a + b, writer.written(), writer.room(), r3, c);
    }
    r3
}

/// Put the username and the password of a Connect packet, each if present
fn put_credentials<W: MqttWriter>(writer: &mut W, username: Option<&str>, password: Option<&[u8]>) -> (r: Result<(), PacketWriteError>)
    ensures
        put_outcome(
            old(writer).written(),
            old(writer).room(),
            final(writer).written(),
            final(writer).room(),
            r,
            credentials_steps(optional_str_view(username), optional_binary_view(password)),
        ),
{
    let ghost w0 = writer.written();
    let ghost m0 = writer.room();
    let ghost e = optional_str_steps(optional_str_view(username));
    let ghost f = optional_binary_steps(optional_binary_view(password));
    let r1 = match username {
        Some(username) => writer.put_str(username),
        None => {
            proof {
                lemma_put_nothing(w0, m0);
            }
            Ok(())
        },
    };
    let ghost w1 = writer.written();
    let ghost m1 = writer.room();
    if r1.is_err() {
        proof {
            lemma_put_stop(w0, m0, w1, m1, r1, e, f);
        }
        return r1;
    }
    let r2 = match password {
        Some(password) => writer.put_binary_data(password),
        None => {
            proof {
                lemma_put_nothing(w1, m1);
            }
            Ok(())
        },
    };
    proof {
        lemma_put_then(w0, m0, w1, m1, r1, e, writer.written(), writer.room(), r2, f);
    }
    r2
}

impl<'a> MqttBufReader<'a> {
    /// Get the fixed part of the variable header of a Connect packet, as
    /// [parse_connect_header] reads it: gives the connect flags and the keep alive
    pub fn get_connect_header(&mut self) -> (r: Result<(u8, u16), PacketReadError>)
        ensures
            final(self).data() == old(self).data(),
            match parse_connect_header(old(self).rest()) {
                Ok((v, n)) => r == Ok::<(u8, u16), PacketReadError>(v) && advanced(*old(self), *final(self), n),
                Err(e) => r == Err::<(u8, u16), PacketReadError>(e),
            },
    {
        let ghost s0 = self.rest();
        let name = match self.get_str() {
            Ok(n) => n,
            Err(e) => return Err(e),
        };
        let ghost r1 = *self;
        let ghost n1 = parse_str(s0)->Ok_0.1;
        let version = match self.get_u8() {
            Ok(v) => v,
            Err(e) => return Err(e),
        };
        let ghost r2 = *self;
        proof {
            lemma_advanced_trans(*old(self), r1, r2, n1, 1);
            assert(r2.rest() =~= s0.skip((n1 + 1) as int));
        }
        let bytes = name.as_bytes();
        let name_ok = bytes.len() == 4 && bytes[0] == 0x4d && bytes[1] == 0x51 && bytes[2] == 0x54
            && bytes[3] == 0x54;
        assert(name_ok <==> bytes@ =~= protocol_name_bytes());
        if !name_ok || version != PROTOCOL_VERSION_5 {
            return Err(PacketReadError::UnsupportedProtocolVersion);
        }
        let flags = match self.get_u8() {
            Ok(v) => v,
            Err(e) => return Err(e),
        };
        let ghost r3 = *self;
        proof {
            lemma_advanced_trans(*old(self), r2, r3, n1 + 1, 1);
            assert(r3.rest() =~= s0.skip((n1 + 2) as int));
        }
        assert(flags & 1 != 0 <==> flags % 2 == 1) by (bit_vector);
        if flags & 1 != 0 {
            return Err(PacketReadError::InvalidConnectFlags);
        }
        let keep_alive = match self.get_u16() {
            Ok(v) => v,
            Err(e) => return Err(e),
        };
        proof {
            lemma_advanced_trans(*old(self), r3, *self, n1 + 2, 2);
        }
        Ok((flags, keep_alive))
    }

    /// Get the will of a Connect packet with connect flags `flags`, as [parse_will] reads it
    pub fn get_will<const N: usize>(&mut self, flags: u8) -> (r: Result<Option<Will<'a, N>>, PacketReadError>)
        ensures
            final(self).data() == old(self).data(),
            match parse_will(old(self).rest(), flags, N as nat) {
                Ok((v, n)) => r is Ok && optional_will_view(r->Ok_0) == v && advanced(*old(self), *final(self), n),
                Err(e) => r == Err::<Option<Will<N>>, PacketReadError>(e),
            },
    {
        let ghost s0 = self.rest();
        let has_will = flags & 4 != 0;
        let qos_bits = (flags >> 3) & 3;
        let retain = flags & 32 != 0;
        assert(flags & 4 != 0 <==> (flags / 4) % 2 == 1) by (bit_vector);
        assert((flags >> 3) & 3 == (flags / 8) % 4) by (bit_vector);
        assert(flags & 32 != 0 <==> (flags / 32) % 2 == 1) by (bit_vector);
        if has_will {
            let qos = match QualityOfService::try_from_u8(qos_bits) {
                Ok(q) => q,
                Err(e) => return Err(e),
            };
            let properties = match self.get_property_list(PropertyContext::Will, N) {
                Ok(ps) => ps,
                Err(e) => return Err(e),
            };
            let ghost r1 = *self;
            let ghost n1 = parse_property_list(s0, PropertyContext::Will, N as nat)->Ok_0.1;
            let topic_name = match self.get_str() {
                Ok(t) => t,
                Err(e) => return Err(e),
            };
            let ghost r2 = *self;
            let ghost n2 = parse_str(r1.rest())->Ok_0.1;
            proof {
                lemma_advanced_trans(*old(self), r1, r2, n1, n2);
                assert(r2.rest() =~= s0.skip((n1 + n2) as int));
            }
            let payload = match self.get_binary_data() {
                Ok(p) => p,
                Err(e) => return Err(e),
            };
            proof {
                let n3 = parse_binary(r2.rest())->Ok_0.1;
                lemma_advanced_trans(*old(self), r2, *self, n1 + n2, n3);
            }
            Ok(Some(Will { qos, retain, topic_name, payload, properties }))
        } else if qos_bits != 0 {
            Err(PacketReadError::WillQosSpecifiedWithoutWill)
        } else if retain {
            Err(PacketReadError::WillRetainSpecifiedWithoutWill)
        } else {
            assert(s0.skip(0) =~= s0);
            Ok(None)
        }
    }

    /// Get a string when `present`, otherwise nothing
    pub fn get_optional_str(&mut self, present: bool) -> (r: Result<Option<&'a str>, PacketReadError>)
        ensures
            final(self).data() == old(self).data(),
            match parse_optional_str(old(self).rest(), present) {
                Ok((v, n)) => r is Ok && optional_str_view(r->Ok_0) == v && advanced(*old(self), *final(self), n),
                Err(e) => r == Err::<Option<&str>, PacketReadError>(e),
            },
    {
        if present {
            match self.get_str() {
                Ok(s) => Ok(Some(s)),
                Err(e) => Err(e),
            }
        } else {
            assert(self.rest().skip(0) =~= self.rest());
            Ok(None)
        }
    }

    /// Get binary data when `present`, otherwise nothing
    pub fn get_optional_binary(&mut self, present: bool) -> (r: Result<Option<&'a [u8]>, PacketReadError>)
        ensures
            final(self).data() == old(self).data(),
            match parse_optional_binary(old(self).rest(), present) {
                Ok((v, n)) => r is Ok && optional_binary_view(r->Ok_0) == v && advanced(*old(self), *final(self), n),
                Err(e) => r == Err::<Option<&[u8]>, PacketReadError>(e),
            },
    {
        if present {
            match self.get_binary_data() {
                Ok(b) => Ok(Some(b)),
                Err(e) => Err(e),
            }
        } else {
            assert(self.rest().skip(0) =~= self.rest());
            Ok(None)
        }
    }
}

impl<'a, const P: usize, const WP: usize> PacketRead<'a> for Connect<'a, P, WP> {
    open spec fn parse_body(s: Seq<u8>, first_header_byte: u8, len: nat) -> Result<(ConnectView, nat), PacketReadError> {
        parse_connect(s, P as nat, WP as nat)
    }

    #[verifier::rlimit(40)]
    fn get_variable_header_and_payload(reader: &mut MqttBufReader<'a>, first_header_byte: u8, len: usize) -> (r: Result<Self, PacketReadError>) {
        let ghost s0 = reader.rest();
        let (flags, keep_alive) = match reader.get_connect_header() {
            Ok(x) => x,
            Err(e) => return Err(e),
        };
        let ghost r1 = *reader;
        let ghost n1 = parse_connect_header(s0)->Ok_0.1;
        let properties = match reader.get_property_list(PropertyContext::Connect, P) {
            Ok(ps) => ps,
            Err(e) => return Err(e),
        };
        let ghost r2 = *reader;
        let ghost n2 = parse_property_list(r1.rest(), PropertyContext::Connect, P as nat)->Ok_0.1;
        proof {
            lemma_advanced_trans(*old(reader), r1, r2, n1, n2);
            assert(r2.rest() =~= s0.skip((n1 + n2) as int));
        }
        let client_id = match reader.get_str() {
            Ok(c) => c,
            Err(e) => return Err(e),
        };
        let ghost r3 = *reader;
        let ghost n3 = parse_str(r2.rest())->Ok_0.1;
        proof {
            lemma_advanced_trans(*old(reader), r2, r3, n1 + n2, n3);
            assert(r3.rest() =~= s0.skip((n1 + n2 + n3) as int));
        }
        let will = match reader.get_will::<WP>(flags) {
            Ok(w) => w,
            Err(e) => return Err(e),
        };
        let ghost r4 = *reader;
        let ghost n4 = parse_will(r3.rest(), flags, WP as nat)->Ok_0.1;
        proof {
            lemma_advanced_trans(*old(reader), r3, r4, n1 + n2 + n3, n4);
            assert(r4.rest() =~= s0.skip((n1 + n2 + n3 + n4) as int));
        }
        assert(flags & 128 != 0 <==> flags / 128 == 1) by (bit_vector);
        assert(flags & 64 != 0 <==> (flags / 64) % 2 == 1) by (bit_vector);
        assert(flags & 2 != 0 <==> (flags / 2) % 2 == 1) by (bit_vector);
        let username = match reader.get_optional_str(flags & 128 != 0) {
            Ok(u) => u,
            Err(e) => return Err(e),
        };
        let ghost r5 = *reader;
        let ghost n5 = parse_optional_str(r4.rest(), flags / 128 == 1)->Ok_0.1;
        proof {
            lemma_advanced_trans(*old(reader), r4, r5, n1 + n2 + n3 + n4, n5);
            assert(r5.rest() =~= s0.skip((n1 + n2 + n3 + n4 + n5) as int));
        }
        let password = match reader.get_optional_binary(flags & 64 != 0) {
            Ok(p) => p,
            Err(e) => return Err(e),
        };
        proof {
            let n6 = parse_optional_binary(r5.rest(), (flags / 64) % 2 == 1)->Ok_0.1;
            lemma_advanced_trans(*old(reader), r5, *reader, n1 + n2 + n3 + n4 + n5, n6);
        }
        Ok(Connect {
            keep_alive,
            username,
            password,
            client_id,
            clean_start: flags & 2 != 0,
            will,
            properties,
        })
    }
}

/// The connect flags byte keeps each flag in its bit, with the reserved bit 0 clear.
pub proof fn lemma_connect_flags(v: ConnectView)
    ensures
        ({
            let f = connect_flags_byte(v);
            &&& f % 2 == 0
            &&& ((f / 2) % 2 == 1 <==> v.clean_start)
            &&& ((f / 4) % 2 == 1 <==> v.will is Some)
            &&& (f / 8) % 4 == (match v.will {
                Some(w) => qos_value(w.qos),
                None => 0u8,
            })
            &&& ((f / 32) % 2 == 1 <==> (v.will matches Some(w) && w.retain))
            &&& ((f / 64) % 2 == 1 <==> v.password is Some)
            &&& (f / 128 == 1 <==> v.username is Some)
        }),
{
    let c: int = if v.clean_start { 2 } else { 0 };
    let q: int = match v.will {
        Some(w) => qos_value(w.qos) as int,
        None => 0,
    };
    let r: int = match v.will {
        Some(w) => if w.retain { 32 } else { 0 },
        None => 0,
    };
    let wp: int = if v.will is Some { 4 } else { 0 };
    let pw: int = if v.password is Some { 64 } else { 0 };
    let un: int = if v.username is Some { 128 } else { 0 };
    let f: int = c + wp + 8 * q + r + pw + un;
    assert(0 <= f < 256);
    reveal(connect_flags_byte);
    assert(connect_flags_byte(v) == f);
}

/// The steps of writing the fixed part of the variable header of a Connect packet: the
/// protocol name, the protocol version, the connect flags and the keep alive
pub open spec fn connect_header_steps(flags: u8, keep_alive: u16) -> Seq<WriteStep> {
    str_steps(protocol_name_bytes()) + seq![
        WriteStep::Bytes(seq![PROTOCOL_VERSION_5]),
        WriteStep::Bytes(seq![flags]),
        WriteStep::Bytes(enc_u16(keep_alive)),
    ]
}

/// The protocol name is written without failure, as its length and its bytes, which are
/// valid UTF-8.
#[verifier::spinoff_prover]
pub proof fn lemma_protocol_name_steps()
    ensures
        steps_failure(str_steps(protocol_name_bytes())) is None,
        steps_bytes(str_steps(protocol_name_bytes())) == enc_u16(4) + protocol_name_bytes(),
        utf8_valid(protocol_name_bytes()),
{
    let name = protocol_name_bytes();
    lemma_protocol_name_bytes();
    lemma_str_utf8_valid(PROTOCOL_NAME);
    assert forall|i: int| 0 <= i < name.len() implies name[i] != 0u8 by {}
    assert(!name.contains(0u8));
    let en = seq![WriteStep::Bytes(enc_u16(4))];
    let nm = seq![WriteStep::Bytes(name)];
    assert(str_steps(name) =~= en + nm);
    lemma_steps_append(en, nm);
    lemma_steps_one(enc_u16(4));
    lemma_steps_one(name);
}

/// The fixed part of the variable header of a Connect packet is written without failure,
/// as ten bytes.
#[verifier::spinoff_prover]
pub proof fn lemma_connect_header_bytes(flags: u8, keep_alive: u16)
    ensures
        steps_failure(connect_header_steps(flags, keep_alive)) is None,
        steps_bytes(connect_header_steps(flags, keep_alive)) == enc_u16(4) + protocol_name_bytes() + (seq![PROTOCOL_VERSION_5] + (seq![flags] + enc_u16(keep_alive))),
{
    lemma_protocol_name_steps();
    let a = str_steps(protocol_name_bytes());
    let b = seq![WriteStep::Bytes(seq![PROTOCOL_VERSION_5])];
    let c = seq![WriteStep::Bytes(seq![flags])];
    let d = seq![WriteStep::Bytes(enc_u16(keep_alive))];
    assert(connect_header_steps(flags, keep_alive) =~= a + (b + (c + d)));
    lemma_steps_append(a, b + (c + d));
    lemma_steps_append(b, c + d);
    lemma_steps_append(c, d);
    lemma_steps_one(seq![PROTOCOL_VERSION_5]);
    lemma_steps_one(seq![flags]);
    lemma_steps_one(enc_u16(keep_alive));
}

/// The fixed part of the variable header of a Connect packet, with the reserved flag clear,
/// is ten bytes, written without failure, which read back as the same flags and keep alive.
#[verifier::spinoff_prover]
pub proof fn lemma_connect_header_roundtrip(flags: u8, keep_alive: u16, rest: Seq<u8>)
    requires
        flags % 2 == 0,
    ensures
        steps_failure(connect_header_steps(flags, keep_alive)) is None,
        steps_bytes(connect_header_steps(flags, keep_alive)).len() == 10,
        parse_connect_header(steps_bytes(connect_header_steps(flags, keep_alive)) + rest) == Ok::<((u8, u16), nat), PacketReadError>(((flags, keep_alive), 10)),
{
    let name = protocol_name_bytes();
    lemma_protocol_name_steps();
    lemma_connect_header_bytes(flags, keep_alive);
    let ka = enc_u16(keep_alive);
    let tail = seq![PROTOCOL_VERSION_5] + (seq![flags] + (ka + rest));
    lemma_str_steps_roundtrip(name, tail);
    let en = enc_u16(4) + name;
    let s = steps_bytes(connect_header_steps(flags, keep_alive)) + rest;
    assert(s =~= en + tail);
    assert(parse_str(s) == Ok::<(Seq<u8>, nat), PacketReadError>((name, 6)));
    lemma_uint_steps_roundtrip(PROTOCOL_VERSION_5, 0, 0, seq![flags] + (ka + rest));
    assert(s.skip(6) =~= tail);
    lemma_uint_steps_roundtrip(flags, keep_alive, 0, ka + rest);
    assert(s.skip(7) =~= seq![flags] + (ka + rest));
    lemma_uint_steps_roundtrip(0, keep_alive, 0, rest);
    assert(s.skip(8) =~= ka + rest);
}

/// The view of a will whose strings are valid UTF-8 and whose properties are accepted in
/// wills, with room for them
pub open spec fn will_readable(will: Option<WillView>, capacity: nat) -> bool {
    match will {
        Some(w) => utf8_valid(w.topic_name) && properties_accepted(w.properties, PropertyContext::Will)
            && w.properties.len() <= capacity,
        None => true,
    }
}

/// A will written without failure reads back as the same will, with the flags of its
/// Connect packet, whatever data follows it.
#[verifier::spinoff_prover]
pub proof fn lemma_will_roundtrip(v: ConnectView, capacity: nat, rest: Seq<u8>)
    requires
        will_readable(v.will, capacity),
        steps_failure(will_steps(v.will)) is None,
    ensures
        parse_will(steps_bytes(will_steps(v.will)) + rest, connect_flags_byte(v), capacity) == Ok::<(Option<WillView>, nat), PacketReadError>((v.will, steps_bytes(will_steps(v.will)).len())),
{
    lemma_connect_flags(v);
    match v.will {
        Some(w) => {
            let a = property_list_steps(w.properties);
            let b = str_steps(w.topic_name);
            let c = binary_steps(w.payload);
            lemma_steps_append(a + b, c);
            lemma_steps_append(a, b);
            let ab = steps_bytes(a);
            let pb = enc_u16(w.payload.len() as u16) + w.payload;
            lemma_binary_steps_roundtrip(w.payload, rest);
            let tb = enc_u16(w.topic_name.len() as u16) + w.topic_name;
            lemma_str_steps_roundtrip(w.topic_name, pb + rest);
            lemma_property_list_roundtrip(w.properties, PropertyContext::Will, capacity, tb + pb + rest);
            let s = steps_bytes(will_steps(v.will)) + rest;
            assert(s =~= ab + (tb + pb + rest));
            assert(s.skip(ab.len() as int) =~= tb + (pb + rest));
            assert(parse_str(s.skip(ab.len() as int)) == Ok::<(Seq<u8>, nat), PacketReadError>((w.topic_name, tb.len())));
            assert(s.skip((ab.len() + tb.len()) as int) =~= pb + rest);
            crate::data::quality_of_service::lemma_qos_value_roundtrip(w.qos, 0);
        },
        None => {
            assert(Seq::<u8>::empty() + rest =~= rest);
        },
    }
}

/// An optional string, valid UTF-8 when present, written without failure, reads back as the
/// same optional string when its presence is known.
pub proof fn lemma_optional_str_roundtrip(v: Option<Seq<u8>>, rest: Seq<u8>)
    requires
        v matches Some(b) ==> utf8_valid(b),
        steps_failure(optional_str_steps(v)) is None,
    ensures
        parse_optional_str(steps_bytes(optional_str_steps(v)) + rest, v is Some) == Ok::<(Option<Seq<u8>>, nat), PacketReadError>((v, steps_bytes(optional_str_steps(v)).len())),
{
    match v {
        Some(b) => {
            lemma_str_steps_roundtrip(b, rest);
        },
        None => {
            assert(Seq::<u8>::empty() + rest =~= rest);
        },
    }
}

/// Optional binary data written without failure reads back as the same optional data when
/// its presence is known.
pub proof fn lemma_optional_binary_roundtrip(v: Option<Seq<u8>>, rest: Seq<u8>)
    requires
        steps_failure(optional_binary_steps(v)) is None,
    ensures
        parse_optional_binary(steps_bytes(optional_binary_steps(v)) + rest, v is Some) == Ok::<(Option<Seq<u8>>, nat), PacketReadError>((v, steps_bytes(optional_binary_steps(v)).len())),
{
    match v {
        Some(b) => {
            lemma_binary_steps_roundtrip(b, rest);
        },
        None => {
            assert(Seq::<u8>::empty() + rest =~= rest);
        },
    }
}

/// What the variable header and payload of a Connect packet hold can be read back: the
/// client identifier, the username and the will topic are valid UTF-8, the properties and
/// will properties are accepted in their contexts, with room for them
pub open spec fn connect_readable(v: ConnectView, p: nat, w: nat) -> bool {
    &&& utf8_valid(v.client_id)
    &&& (v.username matches Some(b) ==> utf8_valid(b))
    &&& will_readable(v.will, w)
    &&& properties_accepted(v.properties, PropertyContext::Connect)
    &&& v.properties.len() <= p
}

/// The bytes of the variable header and payload of a Connect packet written without
/// failure: those of each of its parts in turn, each written without failure.
#[verifier::spinoff_prover]
pub proof fn lemma_connect_bytes(v: ConnectView)
    requires
        steps_failure(connect_steps(v)) is None,
    ensures
        ({
            let h = connect_header_steps(connect_flags_byte(v), v.keep_alive);
            let pl = property_list_steps(v.properties);
            let ci = str_steps(v.client_id);
            let wl = will_steps(v.will);
            let un = optional_str_steps(v.username);
            let pw = optional_binary_steps(v.password);
            &&& steps_failure(pl) is None
            &&& steps_failure(ci) is None
            &&& steps_failure(wl) is None
            &&& steps_failure(un) is None
            &&& steps_failure(pw) is None
            &&& steps_bytes(connect_steps(v)) == steps_bytes(h) + (steps_bytes(pl) + (steps_bytes(ci) + (steps_bytes(wl) + (steps_bytes(un) + steps_bytes(pw)))))
        }),
{
    let h = connect_header_steps(connect_flags_byte(v), v.keep_alive);
    let pl = property_list_steps(v.properties);
    let ci = str_steps(v.client_id);
    let wl = will_steps(v.will);
    let un = optional_str_steps(v.username);
    let pw = optional_binary_steps(v.password);
    assert(connect_steps(v) =~= h + (pl + (ci + (wl + (un + pw)))));
    lemma_steps_append(h, pl + (ci + (wl + (un + pw))));
    lemma_steps_append(pl, ci + (wl + (un + pw)));
    lemma_steps_append(ci, wl + (un + pw));
    lemma_steps_append(wl, un + pw);
    lemma_steps_append(un, pw);
}

/// The client identifier, the will, the username and the password of a Connect packet
/// that can be read back, written without failure, read back as the same values.
#[verifier::spinoff_prover]
pub proof fn lemma_connect_payload_roundtrip(v: ConnectView, w: nat, rest: Seq<u8>)
    requires
        utf8_valid(v.client_id),
        v.username matches Some(b) ==> utf8_valid(b),
        will_readable(v.will, w),
        steps_failure(str_steps(v.client_id)) is None,
        steps_failure(will_steps(v.will)) is None,
        steps_failure(optional_str_steps(v.username)) is None,
        steps_failure(optional_binary_steps(v.password)) is None,
    ensures
        ({
            let flags = connect_flags_byte(v);
            let cib = steps_bytes(str_steps(v.client_id));
            let wlb = steps_bytes(will_steps(v.will));
            let unb = steps_bytes(optional_str_steps(v.username));
            let pwb = steps_bytes(optional_binary_steps(v.password));
            let s = cib + (wlb + (unb + (pwb + rest)));
            &&& parse_str(s) == Ok::<(Seq<u8>, nat), PacketReadError>((v.client_id, cib.len()))
            &&& parse_will(s.skip(cib.len() as int), flags, w) == Ok::<(Option<WillView>, nat), PacketReadError>((v.will, wlb.len()))
            &&& parse_optional_str(s.skip((cib.len() + wlb.len()) as int), flags / 128 == 1) == Ok::<(Option<Seq<u8>>, nat), PacketReadError>((v.username, unb.len()))
            &&& parse_optional_binary(s.skip((cib.len() + wlb.len() + unb.len()) as int), (flags / 64) % 2 == 1) == Ok::<(Option<Seq<u8>>, nat), PacketReadError>((v.password, pwb.len()))
        }),
{
    lemma_connect_flags(v);
    let cib = steps_bytes(str_steps(v.client_id));
    let wlb = steps_bytes(will_steps(v.will));
    let unb = steps_bytes(optional_str_steps(v.username));
    let pwb = steps_bytes(optional_binary_steps(v.password));
    let s = cib + (wlb + (unb + (pwb + rest)));
    lemma_str_steps_roundtrip(v.client_id, wlb + (unb + (pwb + rest)));
    assert(s =~= enc_u16(v.client_id.len() as u16) + v.client_id + (wlb + (unb + (pwb + rest))));
    assert(s.skip(cib.len() as int) =~= wlb + (unb + (pwb + rest)));
    lemma_will_roundtrip(v, w, unb + (pwb + rest));
    assert(s.skip((cib.len() + wlb.len()) as int) =~= unb + (pwb + rest));
    lemma_optional_str_roundtrip(v.username, pwb + rest);
    assert(s.skip((cib.len() + wlb.len() + unb.len()) as int) =~= pwb + rest);
    lemma_optional_binary_roundtrip(v.password, rest);
}

/// Skipping two counts of bytes in turn is skipping their sum.
pub proof fn lemma_skip_skip(s: Seq<u8>, a: int, b: int)
    requires
        0 <= a,
        0 <= b,
        a + b <= s.len(),
    ensures
        s.skip(a + b) == s.skip(a).skip(b),
{
    assert(s.skip(a + b) =~= s.skip(a).skip(b));
}

/// Reading a Connect packet whose parts each read back as the parts of a Connect packet
/// gives that packet.
#[verifier::spinoff_prover]
pub proof fn lemma_parse_connect_parts(s: Seq<u8>, p: nat, w: nat, v: ConnectView, n2: nat, n3: nat, n4: nat, n5: nat, n6: nat)
    requires
        parse_connect_header(s) == Ok::<((u8, u16), nat), PacketReadError>(((connect_flags_byte(v), v.keep_alive), 10)),
        parse_property_list(s.skip(10), PropertyContext::Connect, p) == Ok::<(Seq<PropertyView>, nat), PacketReadError>((v.properties, n2)),
        parse_str(s.skip(10int + n2)) == Ok::<(Seq<u8>, nat), PacketReadError>((v.client_id, n3)),
        parse_will(s.skip(10int + n2 + n3), connect_flags_byte(v), w) == Ok::<(Option<WillView>, nat), PacketReadError>((v.will, n4)),
        parse_optional_str(s.skip(10int + n2 + n3 + n4), connect_flags_byte(v) / 128 == 1) == Ok::<(Option<Seq<u8>>, nat), PacketReadError>((v.username, n5)),
        parse_optional_binary(s.skip(10int + n2 + n3 + n4 + n5), (connect_flags_byte(v) / 64) % 2 == 1) == Ok::<(Option<Seq<u8>>, nat), PacketReadError>((v.password, n6)),
    ensures
        parse_connect(s, p, w) == Ok::<(ConnectView, nat), PacketReadError>((v, 10 + n2 + n3 + n4 + n5 + n6)),
{
    lemma_connect_flags(v);
}

/// Concatenations of byte sequences associate.
pub proof fn lemma_concat_assoc(a: Seq<u8>, b: Seq<u8>, c: Seq<u8>, d: Seq<u8>, e: Seq<u8>, f: Seq<u8>, r: Seq<u8>)
    ensures
        (a + (b + (c + (d + (e + f))))) + r == a + (b + (c + (d + (e + (f + r))))),
{
    assert((a + (b + (c + (d + (e + f))))) + r =~= a + (b + (c + (d + (e + (f + r))))));
}

/// Skipping the first part of a concatenation leaves the second.
pub proof fn lemma_concat_skip(a: Seq<u8>, b: Seq<u8>)
    ensures
        (a + b).skip(a.len() as int) == b,
{
    assert((a + b).skip(a.len() as int) =~= b);
}

/// The variable header and payload of a Connect packet that can be read back, written
/// without failure, read back as the same packet, whatever data follows them.
#[verifier::spinoff_prover]
pub proof fn lemma_connect_body_roundtrip(v: ConnectView, p: nat, w: nat, rest: Seq<u8>)
    requires
        connect_readable(v, p, w),
        steps_failure(connect_steps(v)) is None,
    ensures
        parse_connect(steps_bytes(connect_steps(v)) + rest, p, w) == Ok::<(ConnectView, nat), PacketReadError>((v, steps_bytes(connect_steps(v)).len())),
{
    let flags = connect_flags_byte(v);
    lemma_connect_flags(v);
    lemma_connect_bytes(v);
    let hb = steps_bytes(connect_header_steps(flags, v.keep_alive));
    let plb = steps_bytes(property_list_steps(v.properties));
    let cib = steps_bytes(str_steps(v.client_id));
    let wlb = steps_bytes(will_steps(v.will));
    let unb = steps_bytes(optional_str_steps(v.username));
    let pwb = steps_bytes(optional_binary_steps(v.password));
    let tail = cib + (wlb + (unb + (pwb + rest)));
    let s = steps_bytes(connect_steps(v)) + rest;
    lemma_concat_assoc(hb, plb, cib, wlb, unb, pwb, rest);
    assert(s == hb + (plb + tail));
    lemma_connect_header_roundtrip(flags, v.keep_alive, plb + tail);
    lemma_concat_skip(hb, plb + tail);
    lemma_property_list_roundtrip(v.properties, PropertyContext::Connect, p, tail);
    lemma_concat_skip(plb, tail);
    let n2 = plb.len();
    let n3 = cib.len();
    let n4 = wlb.len();
    let n5 = unb.len();
    lemma_skip_skip(s, 10, n2 as int);
    lemma_connect_payload_roundtrip(v, w, rest);
    lemma_skip_skip(s, 10int + n2, n3 as int);
    lemma_skip_skip(s, 10int + n2 + n3, n4 as int);
    lemma_skip_skip(s, 10int + n2 + n3 + n4, n5 as int);
    lemma_skip_skip(tail, n3 as int, n4 as int);
    lemma_skip_skip(tail, n3 + n4 as int, n5 as int);
    lemma_parse_connect_parts(s, p, w, v, plb.len(), cib.len(), wlb.len(), unb.len(), pwb.len());
    assert(steps_bytes(connect_steps(v)).len() == 10 + plb.len() + cib.len() + wlb.len() + unb.len() + pwb.len());
}

/// A Connect packet whose properties and will properties are accepted in their contexts,
/// and are no more than reading one accepts, written without failure, reads back as the
/// same packet, whatever data follows it.
pub proof fn lemma_connect_roundtrip<'a, const P: usize, const WP: usize>(c: Connect<'a, P, WP>, rest: Seq<u8>)
    requires
        properties_accepted(c@.properties, PropertyContext::Connect),
        c@.properties.len() <= P,
        c@.will matches Some(w) ==> properties_accepted(w.properties, PropertyContext::Will) && w.properties.len() <= WP,
        steps_failure(packet_steps(c.spec_first_byte(), c.body_steps())) is None,
    ensures
        parse_packet::<Connect<'a, P, WP>>(steps_bytes(packet_steps(c.spec_first_byte(), c.body_steps())) + rest)
            == Ok::<(ConnectView, nat), PacketReadError>((c@, steps_bytes(packet_steps(c.spec_first_byte(), c.body_steps())).len())),
{
    lemma_str_utf8_valid(c.client_id);
    if let Some(u) = c.username {
        lemma_str_utf8_valid(u);
    }
    if let Some(w) = c.will {
        lemma_str_utf8_valid(w.topic_name);
    }
    lemma_packet_body_written(c.spec_first_byte(), c.body_steps());
    lemma_connect_body_roundtrip(c@, P as nat, WP as nat, rest);
    lemma_packet_roundtrip(c, rest);
}

} // verus!
