//! The battery query of the Havit MS966WB receiver and the state the monitor keeps
//! about it.
//!
//! The receiver answers a 64-byte read request on its private HID collection; byte 8
//! of the answer is the battery percentage. Everything here is the part of that
//! exchange that decides: what to send, what an answer means, and what the monitor
//! shows afterwards. Talking to the device is left to the caller.

use vstd::prelude::*;

use crate::text::{decimal, hex_digits, push_decimal, push_hex};

verus! {

pub const VID: u16 = 0x320F;

pub const PID: u16 = 0x2261;

pub const USAGE_PAGE: u16 = 0xFF1C;

pub const USAGE: u16 = 0x0092;

pub const REPORT_ID: u8 = 0x04;

pub const READ_COMMAND: u8 = 0x1A;

pub const WIRELESS_ROUTE: u8 = 0x02;

pub const REPORT_LENGTH: usize = 64;

/// What the last read attempt found.
#[derive(Clone, Copy, PartialEq, Eq, Structural, Debug)]
pub enum BatteryStatus {
    Available,
    Sleeping,
    NotFound,
    Busy,
    Error,
}

/// What the monitor shows: the current percentage (none unless the last read
/// succeeded), the last one read, the status and message of the last attempt, when it
/// was made (milliseconds since the Unix epoch) and when the last success was.
#[derive(Clone, Debug)]
pub struct BatterySnapshot {
    pub percentage: Option<u8>,
    pub last_known_percentage: Option<u8>,
    pub status: BatteryStatus,
    pub message: String,
    pub updated_at: u64,
    pub last_success_at: Option<u64>,
}

/// Why a battery read did not produce a percentage.
#[derive(Debug)]
pub enum ReadFailure {
    Sleeping,
    NotFound,
    Busy,
    Protocol(String),
    Hid(String),
}

#[verifier::external_type_specification]
#[verifier::external_body]
pub struct ExSystemTime(std::time::SystemTime);

/// Calls `SystemTime::now`. What it returns depends on the clock; nothing is stated.
#[verifier::external_body]
fn system_now() -> std::time::SystemTime {
    std::time::SystemTime::now()
}

/// Calls `SystemTime::duration_since(UNIX_EPOCH)` on `t`, with `None` for the error
/// it gives when `t` is before the epoch. Nothing is stated of the duration.
#[verifier::external_body]
fn since_epoch(t: &std::time::SystemTime) -> Option<std::time::Duration> {
    t.duration_since(std::time::UNIX_EPOCH).ok()
}

/// Calls `Duration::as_millis`. Nothing is stated of the result.
#[verifier::external_body]
fn whole_millis(d: &std::time::Duration) -> u128 {
    d.as_millis()
}

/// Milliseconds kept to 64 bits: the low 64 bits of `elapsed`, or 0 when there is no
/// elapsed time (the clock is set before the epoch).
pub open spec fn millis_value(elapsed: Option<u128>) -> u64 {
    match elapsed {
        Some(m) => (m % 0x1_0000_0000_0000_0000) as u64,
        None => 0,
    }
}

/// Turns the milliseconds elapsed since the epoch (`None` when the clock is set
/// before it) into the 64-bit timestamp the snapshots carry.
pub fn millis_u64(elapsed: Option<u128>) -> (ms: u64)
    ensures
        ms == millis_value(elapsed),
{
    match elapsed {
        Some(m) => (m % 0x1_0000_0000_0000_0000u128) as u64,
        None => 0,
    }
}

/// Milliseconds since the Unix epoch by the system clock, kept to 64 bits; 0 when
/// the clock is set before the epoch. The reading depends on the clock, so every
/// `u64` is a possible result and nothing more is stated; [`millis_u64`] states what
/// is done with it.
pub fn now_ms() -> u64 {
    let elapsed = match since_epoch(&system_now()) {
        Some(duration) => Some(whole_millis(&duration)),
        None => None,
    };
    millis_u64(elapsed)
}

/// Whether a HID interface is the receiver's configuration collection: the Havit
/// receiver's vendor and product, on its private usage page and usage.
pub fn is_receiver(vendor_id: u16, product_id: u16, usage_page: u16, usage: u16) -> (r: bool)
    ensures
        r == (vendor_id == VID && product_id == PID && usage_page == USAGE_PAGE && usage == USAGE),
{
    vendor_id == VID && product_id == PID && usage_page == USAGE_PAGE && usage == USAGE
}

// ---------------------------------------------------------------------------
// The read request
// ---------------------------------------------------------------------------
/// The sum of the bytes of `s`.
pub open spec fn byte_sum(s: Seq<u8>) -> int
    decreases s.len(),
{
    if s.len() == 0 {
        0
    } else {
        byte_sum(s.drop_last()) + s.last()
    }
}

/// The checksum a request carries in bytes 1 and 2: the sum of bytes 3 to 31.
pub open spec fn request_checksum(packet: Seq<u8>) -> int {
    byte_sum(packet.subrange(3, 32))
}

/// The read request: report id, checksum (little-endian), read command, a length of
/// six, address zero, and the wireless route in byte 32; every other byte is zero.
pub open spec fn is_read_request(p: Seq<u8>) -> bool {
    &&& p.len() == 64
    &&& p[0] == REPORT_ID
    &&& p[1] == request_checksum(p) % 256
    &&& p[2] == request_checksum(p) / 256
    &&& p[3] == READ_COMMAND
    &&& p[4] == 6
    &&& p[32] == WIRELESS_ROUTE
    &&& forall|i: int| 5 <= i < 64 && i != 32 ==> p[i] == 0
}

pub fn make_read_request() -> (packet: [u8; 64])
    ensures
        is_read_request(packet@),
        request_checksum(packet@) == 0x20,
{
    let mut packet = [0u8; 64];
    packet[0] = REPORT_ID;
    packet[3] = READ_COMMAND;
    packet[4] = 6;
    packet[5] = 0;
    packet[6] = 0;
    packet[7] = 0;
    packet[32] = WIRELESS_ROUTE;

    let mut checksum: u16 = 0;
    let mut i: usize = 3;
    while i < 32
        invariant
            3 <= i <= 32,
            packet@.len() == 64,
            packet@[3] == READ_COMMAND,
            packet@[4] == 6,
            forall|j: int| 5 <= j < 32 ==> packet@[j] == 0,
            checksum == byte_sum(packet@.subrange(3, i as int)),
            checksum == (if i > 3 { 26int } else { 0int }) + (if i > 4 { 6int } else { 0int }),
        decreases 32 - i,
    {
        assert(packet@.subrange(3, i + 1).drop_last() =~= packet@.subrange(3, i as int));
        checksum = checksum + packet[i] as u16;
        i = i + 1;
    }
    let ghost summed = packet@;
    packet[1] = (checksum % 256) as u8;
    packet[2] = (checksum / 256) as u8;
    assert(packet@.subrange(3, 32) =~= summed.subrange(3, 32));
    packet
}


// ---------------------------------------------------------------------------
// Reading the answer
// ---------------------------------------------------------------------------
/// What a failure says, with its text as a sequence of characters.
pub enum FailureView {
    Sleeping,
    NotFound,
    Busy,
    Protocol(Seq<char>),
    Hid(Seq<char>),
}

impl View for ReadFailure {
    type V = FailureView;

    open spec fn view(&self) -> FailureView {
        match self {
            ReadFailure::Sleeping => FailureView::Sleeping,
            ReadFailure::NotFound => FailureView::NotFound,
            ReadFailure::Busy => FailureView::Busy,
            ReadFailure::Protocol(details) => FailureView::Protocol(details@),
            ReadFailure::Hid(details) => FailureView::Hid(details@),
        }
    }
}

/// A read result, its failure taken by its view.
pub open spec fn result_view(r: Result<u8, ReadFailure>) -> Result<u8, FailureView> {
    match r {
        Ok(p) => Ok(p),
        Err(f) => Err(f@),
    }
}

/// A write of `written` bytes of the request: complete, or a protocol failure.
pub open spec fn write_outcome(written: nat) -> Result<(), FailureView> {
    if written == REPORT_LENGTH {
        Ok(())
    } else {
        Err(
            FailureView::Protocol(
                "envio incompleto: "@ + decimal(written) + " de "@ + decimal(REPORT_LENGTH as nat)
                    + " bytes"@,
            ),
        )
    }
}

/// What an answer of `received` bytes, `r`, says about the battery.
pub open spec fn response_outcome(received: nat, r: Seq<u8>) -> Result<u8, FailureView> {
    if received == 0 {
        Err(FailureView::Sleeping)
    } else if received != REPORT_LENGTH {
        Err(
            FailureView::Protocol(
                "resposta com "@ + decimal(received) + " bytes; esperados "@ + decimal(
                    REPORT_LENGTH as nat,
                ),
            ),
        )
    } else if r[0] != REPORT_ID {
        Err(FailureView::Protocol("report ID inesperado: 0x"@ + hex_digits(r[0] as nat, 2, true)))
    } else if r[3] == 0xFE || r[3] == 0xFF || r[7] == 0xFE || r[7] == 0xFF {
        Err(FailureView::Sleeping)
    } else if r[3] != READ_COMMAND {
        Err(
            FailureView::Protocol(
                "comando inesperado na resposta: 0x"@ + hex_digits(r[3] as nat, 2, true),
            ),
        )
    } else if r[8] > 100 {
        Err(FailureView::Protocol("porcentagem inválida: "@ + decimal(r[8] as nat)))
    } else {
        Ok(r[8])
    }
}

/// Checks how many bytes of the request the device accepted.
pub fn check_written(written: usize) -> (r: Result<(), ReadFailure>)
    ensures
        match r {
            Ok(()) => write_outcome(written as nat) == Ok::<(), FailureView>(()),
            Err(f) => write_outcome(written as nat) == Err::<(), FailureView>(f@),
        },
{
    if written != REPORT_LENGTH {
        let mut message = String::from_str("envio incompleto: ");
        push_decimal(&mut message, written as u64);
        message.append(" de ");
        push_decimal(&mut message, REPORT_LENGTH as u64);
        message.append(" bytes");
        return Err(ReadFailure::Protocol(message));
    }
    Ok(())
}

fn protocol_hex(prefix: &str, byte: u8) -> (f: ReadFailure)
    ensures
        f@ == FailureView::Protocol(prefix@ + hex_digits(byte as nat, 2, true)),
{
    let mut message = String::from_str(prefix);
    push_hex(&mut message, byte as u64, 2, true);
    ReadFailure::Protocol(message)
}

/// Reads the battery percentage out of the receiver's answer: `received` is how many
/// bytes arrived in `response`.
pub fn percentage_from_response(received: usize, response: &[u8; 64]) -> (r: Result<
    u8,
    ReadFailure,
>)
    ensures
        result_view(r) == response_outcome(received as nat, response@),
        r matches Ok(p) ==> p <= 100,
{
    if received == 0 {
        return Err(ReadFailure::Sleeping);
    }
    if received != REPORT_LENGTH {
        let mut message = String::from_str("resposta com ");
        push_decimal(&mut message, received as u64);
        message.append(" bytes; esperados ");
        push_decimal(&mut message, REPORT_LENGTH as u64);
        return Err(ReadFailure::Protocol(message));
    }
    if response[0] != REPORT_ID {
        return Err(protocol_hex("report ID inesperado: 0x", response[0]));
    }
    if response[3] == 0xFE || response[3] == 0xFF || response[7] == 0xFE || response[7] == 0xFF {
        return Err(ReadFailure::Sleeping);
    }
    if response[3] != READ_COMMAND {
        return Err(protocol_hex("comando inesperado na resposta: 0x", response[3]));
    }
    let percentage = response[8];
    if percentage > 100 {
        let mut message = String::from_str("porcentagem inválida: ");
        push_decimal(&mut message, percentage as u64);
        return Err(ReadFailure::Protocol(message));
    }
    Ok(percentage)
}

// ---------------------------------------------------------------------------
// The snapshot the monitor shows
// ---------------------------------------------------------------------------
/// A snapshot with its message as a sequence of characters.
pub struct SnapshotView {
    pub percentage: Option<u8>,
    pub last_known_percentage: Option<u8>,
    pub status: BatteryStatus,
    pub message: Seq<char>,
    pub updated_at: u64,
    pub last_success_at: Option<u64>,
}

impl View for BatterySnapshot {
    type V = SnapshotView;

    open spec fn view(&self) -> SnapshotView {
        SnapshotView {
            percentage: self.percentage,
            last_known_percentage: self.last_known_percentage,
            status: self.status,
            message: self.message@,
            updated_at: self.updated_at,
            last_success_at: self.last_success_at,
        }
    }
}

/// The snapshot before any read has been made, taken at `now`.
pub open spec fn initial_view(now: u64) -> SnapshotView {
    SnapshotView {
        percentage: None,
        last_known_percentage: None,
        status: BatteryStatus::Sleeping,
        message: "Aguardando a primeira leitura…"@,
        updated_at: now,
        last_success_at: None,
    }
}

/// The status a failure is shown with.
pub open spec fn failure_status(f: FailureView) -> BatteryStatus {
    match f {
        FailureView::Sleeping => BatteryStatus::Sleeping,
        FailureView::NotFound => BatteryStatus::NotFound,
        FailureView::Busy => BatteryStatus::Busy,
        FailureView::Protocol(_) => BatteryStatus::Error,
        FailureView::Hid(_) => BatteryStatus::Error,
    }
}

/// The message a failure is shown with.
pub open spec fn failure_message(f: FailureView) -> Seq<char> {
    match f {
        FailureView::Sleeping => "O mouse está dormindo ou desligado. Mova-o para atualizar."@,
        FailureView::NotFound => "Receptor USB VID_320F/PID_2261 não encontrado."@,
        FailureView::Busy => "Interface HID ocupada. Feche o aplicativo oficial da Havit."@,
        FailureView::Protocol(details) => "Falha ao consultar o receptor: "@ + details,
        FailureView::Hid(details) => "Falha ao consultar o receptor: "@ + details,
    }
}

/// The snapshot that follows `previous` once a read has given `result` at `now`: a
/// reading replaces the percentage and the last known one; a failure clears the
/// current percentage but keeps the last known one and when it was read.
pub open spec fn snapshot_after(
    previous: SnapshotView,
    result: Result<u8, FailureView>,
    now: u64,
) -> SnapshotView {
    match result {
        Ok(p) => SnapshotView {
            percentage: Some(p),
            last_known_percentage: Some(p),
            status: BatteryStatus::Available,
            message: "Leitura recebida diretamente do receptor USB."@,
            updated_at: now,
            last_success_at: Some(now),
        },
        Err(f) => SnapshotView {
            percentage: None,
            last_known_percentage: previous.last_known_percentage,
            status: failure_status(f),
            message: failure_message(f),
            updated_at: now,
            last_success_at: previous.last_success_at,
        },
    }
}

impl BatterySnapshot {
    /// The snapshot before any read, stamped with the current time.
    pub fn initial() -> (s: Self)
        ensures
            s@ == initial_view(s.updated_at),
    {
        Self::initial_at(now_ms())
    }

    /// The snapshot before any read, stamped with `now`.
    pub fn initial_at(now: u64) -> (s: Self)
        ensures
            s@ == initial_view(now),
    {
        BatterySnapshot {
            percentage: None,
            last_known_percentage: None,
            status: BatteryStatus::Sleeping,
            message: String::from_str("Aguardando a primeira leitura…"),
            updated_at: now,
            last_success_at: None,
        }
    }
}

/// The snapshot that follows `previous` once a read has given `result`, stamped with
/// the current time.
pub fn snapshot_from_result(previous: &BatterySnapshot, result: Result<u8, ReadFailure>) -> (s:
    BatterySnapshot)
    ensures
        s@ == snapshot_after(previous@, result_view(result), s.updated_at),
{
    snapshot_at(previous, result, now_ms())
}

/// The snapshot that follows `previous` once a read has given `result` at `now`.
pub fn snapshot_at(previous: &BatterySnapshot, result: Result<u8, ReadFailure>, now: u64) -> (s:
    BatterySnapshot)
    ensures
        s@ == snapshot_after(previous@, result_view(result), now),
        (s.status == BatteryStatus::Available) <==> result is Ok,
        (s.status == BatteryStatus::Sleeping) <==> result matches Err(ReadFailure::Sleeping),
        (s.status == BatteryStatus::NotFound) <==> result matches Err(ReadFailure::NotFound),
        (s.status == BatteryStatus::Busy) <==> result matches Err(ReadFailure::Busy),
        (s.status == BatteryStatus::Error) <==> (result matches Err(ReadFailure::Protocol(_))
            || result matches Err(ReadFailure::Hid(_))),
{
    proof {
        lemma_status_follows_the_read(previous@, result_view(result), now);
    }
    match result {
        Ok(percentage) => BatterySnapshot {
            percentage: Some(percentage),
            last_known_percentage: Some(percentage),
            status: BatteryStatus::Available,
            message: String::from_str("Leitura recebida diretamente do receptor USB."),
            updated_at: now,
            last_success_at: Some(now),
        },
        Err(ReadFailure::Sleeping) => BatterySnapshot {
            percentage: None,
            last_known_percentage: previous.last_known_percentage,
            status: BatteryStatus::Sleeping,
            message: String::from_str(
                "O mouse está dormindo ou desligado. Mova-o para atualizar.",
            ),
            updated_at: now,
            last_success_at: previous.last_success_at,
        },
        Err(ReadFailure::NotFound) => BatterySnapshot {
            percentage: None,
            last_known_percentage: previous.last_known_percentage,
            status: BatteryStatus::NotFound,
            message: String::from_str("Receptor USB VID_320F/PID_2261 não encontrado."),
            updated_at: now,
            last_success_at: previous.last_success_at,
        },
        Err(ReadFailure::Busy) => BatterySnapshot {
            percentage: None,
            last_known_percentage: previous.last_known_percentage,
            status: BatteryStatus::Busy,
            message: String::from_str(
                "Interface HID ocupada. Feche o aplicativo oficial da Havit.",
            ),
            updated_at: now,
            last_success_at: previous.last_success_at,
        },
        Err(ReadFailure::Protocol(details)) | Err(ReadFailure::Hid(details)) => {
            let message = String::from_str("Falha ao consultar o receptor: ").concat(
                details.as_str(),
            );
            BatterySnapshot {
                percentage: None,
                last_known_percentage: previous.last_known_percentage,
                status: BatteryStatus::Error,
                message,
                updated_at: now,
                last_success_at: previous.last_success_at,
            }
        },
    }
}

/// The snapshot after a series of reads, each a result and the time it came at.
pub open spec fn snapshot_after_reads(
    start: SnapshotView,
    reads: Seq<(Result<u8, FailureView>, u64)>,
) -> SnapshotView
    decreases reads.len(),
{
    if reads.len() == 0 {
        start
    } else {
        snapshot_after(
            snapshot_after_reads(start, reads.drop_last()),
            reads.last().0,
            reads.last().1,
        )
    }
}

/// The monitor keeps the last reading while the mouse sleeps or cannot be reached:
/// after any number of failed reads, the last known percentage and the time of the
/// last successful read are still those of the last success, and nothing is shown as
/// the current percentage.
pub proof fn lemma_last_reading_kept(
    start: SnapshotView,
    reads: Seq<(Result<u8, FailureView>, u64)>,
)
    requires
        forall|i: int| 0 <= i < reads.len() ==> (#[trigger] reads[i]).0 is Err,
    ensures
        snapshot_after_reads(start, reads).last_known_percentage == start.last_known_percentage,
        snapshot_after_reads(start, reads).last_success_at == start.last_success_at,
        reads.len() > 0 ==> snapshot_after_reads(start, reads).percentage is None,
    decreases reads.len(),
{
    if reads.len() > 0 {
        let rest = reads.drop_last();
        assert forall|i: int| 0 <= i < rest.len() implies (#[trigger] rest[i]).0 is Err by {
            assert(rest[i] == reads[i]);
        }
        lemma_last_reading_kept(start, rest);
        assert(reads[reads.len() - 1].0 is Err);
    }
}

/// The status after a read says what the read found: `Available` exactly when it gave
/// a percentage, `Sleeping`, `NotFound` and `Busy` exactly for those failures, and
/// `Error` exactly for a protocol or HID failure.
pub proof fn lemma_status_follows_the_read(
    previous: SnapshotView,
    result: Result<u8, FailureView>,
    now: u64,
)
    ensures
        (snapshot_after(previous, result, now).status == BatteryStatus::Available) <==> result is Ok,
        (snapshot_after(previous, result, now).status == BatteryStatus::Sleeping) <==> result
            == Err::<u8, FailureView>(FailureView::Sleeping),
        (snapshot_after(previous, result, now).status == BatteryStatus::NotFound) <==> result
            == Err::<u8, FailureView>(FailureView::NotFound),
        (snapshot_after(previous, result, now).status == BatteryStatus::Busy) <==> result
            == Err::<u8, FailureView>(FailureView::Busy),
        (snapshot_after(previous, result, now).status == BatteryStatus::Error) <==> (result matches Err(
            FailureView::Protocol(_),
        ) || result matches Err(FailureView::Hid(_))),
{
}

/// What the tray shows when there is no current percentage but an earlier one, `n`:
/// "Mouse dormindo · última leitura: n%", whatever the status. A line that begins
/// "Bateria: " is only shown for a current percentage.
pub proof fn lemma_old_reading_never_shown_as_current(s: SnapshotView)
    ensures
        s.percentage is None && s.last_known_percentage is Some ==> tray_text(s)
            == "Mouse dormindo · última leitura: "@ + decimal(s.last_known_percentage->0 as nat)
            + "%"@,
        tray_text(s).len() >= 9 && tray_text(s).subrange(0, 9) == "Bateria: "@ ==> s.percentage is Some,
{
    reveal_strlit("Bateria: ");
    reveal_strlit("Mouse dormindo · última leitura: ");
    reveal_strlit("Receptor não encontrado");
    reveal_strlit("Interface HID ocupada");
    reveal_strlit("Erro ao ler a bateria");
    reveal_strlit("Bateria indisponível");
    let t = tray_text(s);
    if s.percentage is None && t.len() >= 9 && t.subrange(0, 9) == "Bateria: "@ {
        assert(t.subrange(0, 9)[7] == ':');
        match s.last_known_percentage {
            Some(level) => {
                assert(t[0] == 'M');
            },
            None => {
                match s.status {
                    BatteryStatus::NotFound => assert(t[0] == 'R'),
                    BatteryStatus::Busy => assert(t[0] == 'I'),
                    BatteryStatus::Error => assert(t[0] == 'E'),
                    _ => assert(t[7] == ' '),
                }
            },
        }
    }
}

/// A successful read is what the tray shows next, whatever came before.
pub proof fn lemma_reading_shown(previous: SnapshotView, percentage: u8, now: u64)
    ensures
        tray_text(snapshot_after(previous, Ok(percentage), now)) == "Bateria: "@ + decimal(
            percentage as nat,
        ) + "%"@,
        snapshot_after(previous, Ok(percentage), now).last_known_percentage == Some(percentage),
{
}

/// The line the tray menu and tooltip show for a snapshot.
pub open spec fn tray_text(s: SnapshotView) -> Seq<char> {
    match (s.percentage, s.last_known_percentage) {
        (Some(level), _) => "Bateria: "@ + decimal(level as nat) + "%"@,
        (None, Some(level)) => "Mouse dormindo · última leitura: "@ + decimal(level as nat)
            + "%"@,
        (None, None) => match s.status {
            BatteryStatus::NotFound => "Receptor não encontrado"@,
            BatteryStatus::Busy => "Interface HID ocupada"@,
            BatteryStatus::Error => "Erro ao ler a bateria"@,
            _ => "Bateria indisponível"@,
        },
    }
}

pub fn tray_label(snapshot: &BatterySnapshot) -> (label: String)
    ensures
        label@ == tray_text(snapshot@),
        snapshot.percentage is None && snapshot.last_known_percentage is Some ==> label@
            == "Mouse dormindo · última leitura: "@ + decimal(
            snapshot.last_known_percentage->0 as nat,
        ) + "%"@,
{
    proof {
        lemma_old_reading_never_shown_as_current(snapshot@);
    }
    match (snapshot.percentage, snapshot.last_known_percentage) {
        (Some(level), _) => {
            let mut label = String::from_str("Bateria: ");
            push_decimal(&mut label, level as u64);
            label.append("%");
            label
        },
        (None, Some(level)) => {
            let mut label = String::from_str("Mouse dormindo · última leitura: ");
            push_decimal(&mut label, level as u64);
            label.append("%");
            label
        },
        (None, None) => match snapshot.status {
            BatteryStatus::NotFound => String::from_str("Receptor não encontrado"),
            BatteryStatus::Busy => String::from_str("Interface HID ocupada"),
            BatteryStatus::Error => String::from_str("Erro ao ler a bateria"),
            _ => String::from_str("Bateria indisponível"),
        },
    }
}

/// The tooltip of the tray icon for the line `label`.
pub open spec fn tooltip_text(label: Seq<char>) -> Seq<char> {
    "Havit MS966WB · "@ + label
}

pub fn tray_tooltip(label: &str) -> (tooltip: String)
    ensures
        tooltip@ == tooltip_text(label@),
{
    String::from_str("Havit MS966WB · ").concat(label)
}

} // verus!
