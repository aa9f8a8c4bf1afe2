//! The inbound side of the protocol: a datagram is decoded, bundles are
//! flattened into their messages, and each message is dispatched on its
//! address. Playing state, tempo and song time update the state cache and
//! raise a notification; the ping answer marks the connection as live, under
//! the connection event that every backend raises; every other address is
//! dropped. A datagram that does not decode is skipped.

use vstd::prelude::*;
use vstd::string::*;
use crate::engine::state::{EngineView, StateManager};
use crate::engine::Notification;
use crate::number::{Double, Single};
use crate::osc::messages::{OscArg, OscValue};

verus! {

/// The UDP port on which the control script sends its answers and updates.
pub const LISTEN_PORT: u16 = 11001;

/// `rosc::OscPacket`, a decoded packet. The library reads it through `unpack`.
#[verifier::external_type_specification]
#[verifier::external_body]
pub struct ExOscPacket(rosc::OscPacket);

/// `rosc::OscType`, a decoded argument. The library reads it through `read_arg`.
#[verifier::external_type_specification]
#[verifier::external_body]
pub struct ExOscType(rosc::OscType);

/// `rosc::OscError`, the reason why a datagram does not decode. The library
/// does not read it.
#[verifier::external_type_specification]
#[verifier::external_body]
pub struct ExOscError(rosc::OscError);

/// What a message holds: its address and the values of its arguments.
pub struct MessageModel {
    pub addr: Seq<char>,
    pub args: Seq<OscValue>,
}

/// What a packet holds: one message, or a bundle of packets.
pub enum PacketModel {
    Message(MessageModel),
    Bundle(Seq<PacketModel>),
}

/// What a decoded packet holds.
pub uninterp spec fn packet_model(packet: rosc::OscPacket) -> PacketModel;

/// What a decoded argument holds, as far as this library reads arguments: an
/// integer, a float, a double or a string; `Other` for every other type.
pub uninterp spec fn arg_model(arg: rosc::OscType) -> OscValue;

/// The packet that a datagram decodes to; `None` for a datagram that
/// `rosc::decoder::decode_udp` rejects.
pub uninterp spec fn decoded(bytes: Seq<u8>) -> Option<PacketModel>;

/// What a list of decoded arguments holds, in order.
pub open spec fn arg_models(args: Seq<rosc::OscType>) -> Seq<OscValue> {
    Seq::new(args.len(), |i: int| arg_model(args[i]))
}

/// What a list of decoded packets holds, in order.
pub open spec fn packet_models(packets: Seq<rosc::OscPacket>) -> Seq<PacketModel> {
    Seq::new(packets.len(), |i: int| packet_model(packets[i]))
}

/// `rosc::decoder::decode_udp` on one datagram. The packet is a function of
/// the bytes; the bytes that follow the packet are left aside.
#[verifier::external_body]
fn decode_udp(bytes: &[u8]) -> (r: Result<rosc::OscPacket, rosc::OscError>)
    ensures
        match r {
            Ok(packet) => decoded(bytes@) == Some(packet_model(packet)),
            Err(_) => decoded(bytes@).is_none(),
        },
{
    rosc::decoder::decode_udp(bytes).map(|found| found.1)
}

/// The two forms of a decoded packet, by reference to its fields.
enum Unpacked<'a> {
    Message { addr: &'a str, args: &'a Vec<rosc::OscType> },
    Bundle { content: &'a Vec<rosc::OscPacket> },
}

/// The fields of a `rosc::OscPacket`: the address and arguments of a message,
/// or the packets of a bundle. The time tag of a bundle is not read.
#[verifier::external_body]
fn unpack<'a>(packet: &'a rosc::OscPacket) -> (u: Unpacked<'a>)
    ensures
        match u {
            Unpacked::Message { addr, args } => packet_model(*packet) == PacketModel::Message(
                MessageModel { addr: addr@, args: arg_models(args@) },
            ),
            Unpacked::Bundle { content } => packet_model(*packet) == PacketModel::Bundle(
                packet_models(content@),
            ),
        },
{
    match packet {
        rosc::OscPacket::Message(m) => Unpacked::Message { addr: m.addr.as_str(), args: &m.args },
        rosc::OscPacket::Bundle(b) => Unpacked::Bundle { content: &b.content },
    }
}

/// The value of a `rosc::OscType`: integers, floats, doubles and strings are
/// carried over, floats and doubles by their bit patterns; every other type
/// is `Other`.
#[verifier::external_body]
fn read_arg(arg: &rosc::OscType) -> (a: OscArg)
    ensures
        a@ == arg_model(*arg),
{
    match arg {
        rosc::OscType::Int(i) => OscArg::Int(*i),
        rosc::OscType::Float(x) => OscArg::Float(Single { bits: x.to_bits() }),
        rosc::OscType::Double(x) => OscArg::Double(Double { bits: x.to_bits() }),
        rosc::OscType::String(s) => OscArg::Str(s.clone()),
        _ => OscArg::Other,
    }
}

/// The messages of a packet, in the order in which they stand in it: a bundle
/// holds the messages of its packets, one packet after the other.
pub open spec fn flat(packet: PacketModel) -> Seq<MessageModel>
    decreases packet, 0nat,
{
    match packet {
        PacketModel::Message(m) => seq![m],
        PacketModel::Bundle(content) => flat_first(content, content.len()),
    }
}

/// The messages of the first `n` packets of a bundle.
pub open spec fn flat_first(content: Seq<PacketModel>, n: nat) -> Seq<MessageModel>
    decreases content, n,
{
    if n == 0 || n > content.len() {
        Seq::empty()
    } else {
        flat_first(content, (n - 1) as nat) + flat(content[n - 1])
    }
}

/// The number that a tempo or time argument carries: a float is widened, a
/// double is taken as it is, and no other argument carries one.
pub open spec fn number_of(value: OscValue) -> Option<Double> {
    match value {
        OscValue::Float(x) => Some(x.widened()),
        OscValue::Double(x) => Some(x),
        _ => None,
    }
}

/// The first value of an argument list.
pub open spec fn first_of(args: Seq<OscValue>) -> Option<OscValue> {
    if args.len() > 0 {
        Some(args[0])
    } else {
        None
    }
}

/// The state after one message.
pub open spec fn state_after(state: EngineView, message: MessageModel) -> EngineView {
    let first = first_of(message.args);
    if message.addr == "/live/song/get/is_playing"@ {
        match first {
            Some(OscValue::Int(v)) => EngineView { is_playing: v != 0, ..state },
            _ => state,
        }
    } else if message.addr == "/live/song/get/tempo"@ {
        match first {
            Some(value) => match number_of(value) {
                Some(tempo) => EngineView { tempo: tempo, ..state },
                None => state,
            },
            None => state,
        }
    } else if message.addr == "/live/song/get/current_song_time"@ {
        match first {
            Some(value) => match number_of(value) {
                Some(time) => EngineView { current_time: time, ..state },
                None => state,
            },
            None => state,
        }
    } else {
        state
    }
}

/// The notification that one message raises.
pub open spec fn notification_for(message: MessageModel) -> Option<Notification> {
    let first = first_of(message.args);
    if message.addr == "/live/song/get/is_playing"@ {
        match first {
            Some(OscValue::Int(v)) => Some(Notification::TransportState { is_playing: v != 0 }),
            _ => None,
        }
    } else if message.addr == "/live/song/get/tempo"@ {
        match first {
            Some(value) => match number_of(value) {
                Some(tempo) => Some(Notification::TempoChanged(tempo)),
                None => None,
            },
            None => None,
        }
    } else if message.addr == "/live/song/get/current_song_time"@ {
        match first {
            Some(value) => match number_of(value) {
                Some(time) => Some(Notification::SongTime(time)),
                None => None,
            },
            None => None,
        }
    } else if message.addr == "/live/test"@ {
        Some(Notification::ConnectionChanged(true))
    } else {
        None
    }
}

/// The state after a run of messages, each taken in its turn.
pub open spec fn state_after_all(state: EngineView, messages: Seq<MessageModel>) -> EngineView
    decreases messages.len(),
{
    if messages.len() == 0 {
        state
    } else {
        state_after(state_after_all(state, messages.drop_last()), messages.last())
    }
}

/// The notifications that a run of messages raises, in the order of the messages.
pub open spec fn notifications_for(messages: Seq<MessageModel>) -> Seq<Notification>
    decreases messages.len(),
{
    if messages.len() == 0 {
        Seq::empty()
    } else {
        match notification_for(messages.last()) {
            Some(n) => notifications_for(messages.drop_last()).push(n),
            None => notifications_for(messages.drop_last()),
        }
    }
}

/// Taking two runs of messages one after the other is taking the joined run.
pub proof fn lemma_runs_join(state: EngineView, first: Seq<MessageModel>, second: Seq<MessageModel>)
    ensures
        state_after_all(state, first + second) == state_after_all(
            state_after_all(state, first),
            second,
        ),
        notifications_for(first + second) == notifications_for(first) + notifications_for(second),
    decreases second.len(),
{
    if second.len() == 0 {
        assert(first + second =~= first);
        assert(notifications_for(first) + notifications_for(second) =~= notifications_for(first));
    } else {
        let all = first + second;
        assert(all.drop_last() =~= first + second.drop_last());
        assert(all.last() == second.last());
        lemma_runs_join(state, first, second.drop_last());
        match notification_for(second.last()) {
            Some(n) => {
                assert(notifications_for(all) =~= notifications_for(first) + notifications_for(
                    second,
                ));
            },
            None => {},
        }
    }
}

/// The number that a tempo or time argument carries.
fn number(arg: &OscArg) -> (n: Option<Double>)
    ensures
        n == number_of(arg@),
{
    match arg {
        OscArg::Float(x) => Some(x.widen()),
        OscArg::Double(x) => Some(*x),
        _ => None,
    }
}

fn same_text(a: &str, b: &str) -> (same: bool)
    ensures
        same == (a@ == b@),
{
    String::from_str(a) == String::from_str(b)
}

/// Dispatches one message on its address: updates the cache and gives the
/// notification for the user interface, if the message raises one.
pub fn handle_message(state: &mut StateManager, addr: &str, first: Option<OscArg>) -> (raised: Option<
    Notification,
>)
    ensures
        final(state)@ == state_after(
            old(state)@,
            MessageModel {
                addr: addr@,
                args: match first {
                    Some(a) => seq![a@],
                    None => Seq::empty(),
                },
            },
        ),
        raised == notification_for(
            MessageModel {
                addr: addr@,
                args: match first {
                    Some(a) => seq![a@],
                    None => Seq::empty(),
                },
            },
        ),
{
    if same_text(addr, "/live/song/get/is_playing") {
        match first {
            Some(OscArg::Int(v)) => {
                let playing = v != 0;
                state.set_playing(playing);
                Some(Notification::TransportState { is_playing: playing })
            },
            _ => None,
        }
    } else if same_text(addr, "/live/song/get/tempo") {
        match first {
            Some(arg) => match number(&arg) {
                Some(tempo) => {
                    state.set_tempo(tempo);
                    Some(Notification::TempoChanged(tempo))
                },
                None => None,
            },
            None => None,
        }
    } else if same_text(addr, "/live/song/get/current_song_time") {
        match first {
            Some(arg) => match number(&arg) {
                Some(time) => {
                    state.set_current_time(time);
                    Some(Notification::SongTime(time))
                },
                None => None,
            },
            None => None,
        }
    } else if same_text(addr, "/live/test") {
        Some(Notification::ConnectionChanged(true))
    } else {
        None
    }
}

/// Dispatch reads the first argument alone.
proof fn lemma_first_argument_decides(message: MessageModel)
    ensures
        forall|state: EngineView|
            #[trigger] state_after(state, message) == state_after(
                state,
                MessageModel {
                    addr: message.addr,
                    args: match first_of(message.args) {
                        Some(v) => seq![v],
                        None => Seq::empty(),
                    },
                },
            ),
        notification_for(message) == notification_for(
            MessageModel {
                addr: message.addr,
                args: match first_of(message.args) {
                    Some(v) => seq![v],
                    None => Seq::empty(),
                },
            },
        ),
{
}

/// Dispatches every message of a packet, bundles flattened, in the order in
/// which the messages stand in the packet. The notifications are appended to `out`.
pub fn handle_packet(state: &mut StateManager, packet: &rosc::OscPacket, out: &mut Vec<Notification>)
    ensures
        final(state)@ == state_after_all(old(state)@, flat(packet_model(*packet))),
        final(out)@ == old(out)@ + notifications_for(flat(packet_model(*packet))),
    decreases packet_model(*packet),
{
    let ghost model = packet_model(*packet);
    match unpack(packet) {
        Unpacked::Message { addr, args } => {
            let first = if args.len() > 0 {
                Some(read_arg(&args[0]))
            } else {
                None
            };
            let ghost message = MessageModel { addr: addr@, args: arg_models(args@) };
            proof {
                lemma_first_argument_decides(message);
                reveal_with_fuel(state_after_all, 2);
                reveal_with_fuel(notifications_for, 2);
                let only = seq![message];
                assert(only.drop_last() =~= Seq::<MessageModel>::empty());
                assert(only.last() == message);
                assert(state_after_all(state@, only) == state_after(state@, message));
                assert(notifications_for(only) =~= match notification_for(message) {
                    Some(n) => seq![n],
                    None => Seq::empty(),
                });
            }
            match handle_message(state, addr, first) {
                Some(n) => {
                    out.push(n);
                },
                None => {},
            }
            assert(out@ =~= old(out)@ + notifications_for(flat(model)));
        },
        Unpacked::Bundle { content } => {
            let ghost models = packet_models(content@);
            let mut i: usize = 0;
            assert(out@ =~= old(out)@ + notifications_for(flat_first(models, 0)));
            while i < content.len()
                invariant
                    i <= content@.len(),
                    models == packet_models(content@),
                    model == PacketModel::Bundle(models),
                    model == packet_model(*packet),
                    state@ == state_after_all(old(state)@, flat_first(models, i as nat)),
                    out@ == old(out)@ + notifications_for(flat_first(models, i as nat)),
                decreases content@.len() - i,
            {
                let ghost before = flat_first(models, i as nat);
                let ghost inner = flat(models[i as int]);
                proof {
                    lemma_runs_join(old(state)@, before, inner);
                    assert(flat_first(models, (i + 1) as nat) == before + inner);
                    assert(models[i as int] == packet_model(content@[i as int]));
                    assert(decreases_to!(model => model->Bundle_0));
                    assert(decreases_to!(models => models[i as int]));
                }
                let ghost sofar = out@;
                handle_packet(state, &content[i], out);
                assert(out@ =~= old(out)@ + notifications_for(before + inner)) by {
                    assert(out@ == sofar + notifications_for(inner));
                }
                i = i + 1;
            }
        },
    }
}

/// Takes one datagram from the control script: decodes it and dispatches its
/// messages. A datagram that does not decode changes nothing and raises nothing.
pub fn handle_datagram(state: &mut StateManager, bytes: &[u8]) -> (raised: Vec<Notification>)
    ensures
        match decoded(bytes@) {
            Some(packet) => final(state)@ == state_after_all(old(state)@, flat(packet))
                && raised@ == notifications_for(flat(packet)),
            None => final(state)@ == old(state)@ && raised@.len() == 0,
        },
{
    let mut raised: Vec<Notification> = Vec::new();
    match decode_udp(bytes) {
        Ok(packet) => {
            handle_packet(state, &packet, &mut raised);
            assert(raised@ =~= notifications_for(flat(packet_model(packet))));
        },
        Err(_) => {},
    }
    raised
}

/// A message to an address that the listener does not know changes nothing
/// and raises nothing.
pub proof fn lemma_unknown_address_is_dropped(state: EngineView, message: MessageModel)
    requires
        message.addr != "/live/song/get/is_playing"@,
        message.addr != "/live/song/get/tempo"@,
        message.addr != "/live/song/get/current_song_time"@,
        message.addr != "/live/test"@,
    ensures
        state_after(state, message) == state,
        notification_for(message).is_none(),
{
}

/// The answer to the ping reports the connection as live, whatever its
/// arguments, and changes nothing in the cache.
pub proof fn lemma_ping_answer_reports_connection(state: EngineView, message: MessageModel)
    requires
        message.addr == "/live/test"@,
    ensures
        notification_for(message) == Some(Notification::ConnectionChanged(true)),
        state_after(state, message) == state,
{
    reveal_strlit("/live/test");
    reveal_strlit("/live/song/get/is_playing");
    reveal_strlit("/live/song/get/tempo");
    reveal_strlit("/live/song/get/current_song_time");
    assert("/live/test"@.len() == 10);
    assert("/live/song/get/is_playing"@.len() == 25);
    assert("/live/song/get/tempo"@.len() == 20);
    assert("/live/song/get/current_song_time"@.len() == 32);
}

/// The listener writes playing state, tempo and song time, and nothing else:
/// whatever arrives, the tracks and the loop stay as they are, and a
/// consistent cache stays consistent.
pub proof fn lemma_listener_writes_three_fields(state: EngineView, messages: Seq<MessageModel>)
    ensures
        state_after_all(state, messages) == (EngineView {
            is_playing: state_after_all(state, messages).is_playing,
            tempo: state_after_all(state, messages).tempo,
            current_time: state_after_all(state, messages).current_time,
            ..state
        }),
        state.consistent() ==> state_after_all(state, messages).consistent(),
    decreases messages.len(),
{
    if messages.len() > 0 {
        lemma_listener_writes_three_fields(state, messages.drop_last());
    }
}

} // verus!
