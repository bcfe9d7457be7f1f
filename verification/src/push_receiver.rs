use vstd::prelude::*;

verus! {

pub const PUSH_TYPE_DOM: &'static str = "dom";

pub const PUSH_TYPE_SERVICE: &'static str = "service";

pub const PUSH_TYPE_DUMP: &'static str = "dump";

/// One UDP push message, after the embedding has inflated and decoded
/// it: the push type, the server's reference time, and the payload.
pub struct PushPacket {
    pub push_type: String,
    pub last_ref_time: u64,
    pub data: String,
}

impl Clone for PushPacket {
    fn clone(&self) -> (r: Self)
        ensures
            r == *self,
    {
        PushPacket {
            push_type: self.push_type.clone(),
            last_ref_time: self.last_ref_time,
            data: self.data.clone(),
        }
    }
}

/// What a push packet asks for.
pub enum PushAction {
    /// `dom` or `service`: the payload is a service snapshot to apply.
    UpdateService,
    /// `dump`: answer with the whole cache map.
    Dump,
    /// Anything else.
    Unknown,
}

/// Whether two strings hold the same characters.
pub fn str_eq(a: &str, b: &str) -> (r: bool)
    ensures
        r == (a@ == b@),
{
    let sa = a.to_owned();
    let sb = b.to_owned();
    sa.eq(&sb)
}

/// Classifies a packet: `dom` and `service` announce a service change,
/// `dump` asks for the cache map, anything else is unknown.
pub fn classify_push(push_type: &str) -> (r: PushAction)
    ensures
        r is UpdateService <==> (push_type@ == PUSH_TYPE_DOM@ || push_type@ == PUSH_TYPE_SERVICE@),
        r is Dump <==> (push_type@ == PUSH_TYPE_DUMP@ && push_type@ != PUSH_TYPE_DOM@ && push_type@
            != PUSH_TYPE_SERVICE@),
        r is Unknown <==> (push_type@ != PUSH_TYPE_DOM@ && push_type@ != PUSH_TYPE_SERVICE@
            && push_type@ != PUSH_TYPE_DUMP@),
{
    if str_eq(push_type, PUSH_TYPE_DOM) || str_eq(push_type, PUSH_TYPE_SERVICE) {
        PushAction::UpdateService
    } else if str_eq(push_type, PUSH_TYPE_DUMP) {
        PushAction::Dump
    } else {
        PushAction::Unknown
    }
}

/// The reply to one push packet: the matching ack type, the packet's
/// own reference time preserved, and the dump payload exactly when one
/// was asked for.
pub fn ack_packet(packet: &PushPacket, action: &PushAction, dump_data: String) -> (r: PushPacket)
    ensures
        r.last_ref_time == packet.last_ref_time,
        action is UpdateService ==> r.push_type@ == "push-ack"@ && r.data@.len() == 0,
        action is Dump ==> r.push_type@ == "dump-ack"@ && r.data@ == dump_data@,
        action is Unknown ==> r.push_type@ == "unknown-ack"@ && r.data@.len() == 0,
{
    match action {
        PushAction::UpdateService => PushPacket {
            push_type: "push-ack".to_owned(),
            last_ref_time: packet.last_ref_time,
            data: String::new(),
        },
        PushAction::Dump => PushPacket {
            push_type: "dump-ack".to_owned(),
            last_ref_time: packet.last_ref_time,
            data: dump_data,
        },
        PushAction::Unknown => PushPacket {
            push_type: "unknown-ack".to_owned(),
            last_ref_time: packet.last_ref_time,
            data: String::new(),
        },
    }
}

/// What inflating a GZip stream to text yields; a function of the bytes
/// alone.
pub uninterp spec fn gunzip_of(b: Seq<u8>) -> Option<Seq<char>>;

/// Relies on flate2's `read::GzDecoder`: inflates a GZip stream and
/// reads it as UTF-8 text; the result depends on the bytes alone, and a
/// stream that does not inflate to text yields nothing.
#[verifier::external_body]
fn gunzip_to_string(buf: &[u8]) -> (r: Option<String>)
    ensures
        match r {
            Some(s) => gunzip_of(buf@) == Some(s@),
            None => gunzip_of(buf@) is None,
        },
{
    let mut gz = flate2::read::GzDecoder::new(buf);
    let mut s = String::new();
    match std::io::Read::read_to_string(&mut gz, &mut s) {
        Ok(_) => Some(s),
        Err(_) => None,
    }
}

/// Inflates one datagram's payload, as push packets arrive compressed;
/// a malformed payload yields nothing and is skipped.
pub fn decompress_push_payload(buf: &[u8]) -> (r: Option<String>)
    ensures
        match r {
            Some(s) => gunzip_of(buf@) == Some(s@),
            None => gunzip_of(buf@) is None,
        },
{
    gunzip_to_string(buf)
}

/// Chooses the UDP port the push receiver binds, in 54951..=55950.
/// The draw comes from `rand::random`; every outcome lies in range.
pub fn choose_push_port() -> (p: u16)
    ensures
        54951 <= p <= 55950,
{
    let r: u16 = rand::random();
    54951 + r % 1000
}

} // verus!
