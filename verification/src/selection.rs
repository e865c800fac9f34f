//! Choosing one Ledger among the wallets that enumeration found.

use vstd::prelude::*;
use vstd::string::StringExecFns;

use crate::error::{failure, ErrorKind, ErrorView, SignerError};
use crate::text::{join, join3, opt_view};
use crate::wallet_error::{map_rw_err, wallet_failure, WalletError, NO_LEDGER};

verus! {

/// A Ledger that enumeration found.
pub struct LedgerHandle<W> {
    /// The open wallet.
    pub wallet: W,
    /// The OS HID path of the wallet's own device handle, where it has one.
    pub hid_path: Option<String>,
    /// The canonical Solana device locator, stable across re-plugs.
    pub pretty_path: String,
}

/// A wallet that enumeration found. It is the wallet's type that identifies a
/// Ledger, not its model.
pub enum DetectedDevice<W> {
    Ledger(LedgerHandle<W>),
    Other,
}

/// What came of enumerating the wallets on this host.
pub enum ScanOutcome<W> {
    /// The HID subsystem could not be brought up, for the reason given.
    SubsystemUnavailable(String),
    /// The subsystem is up, but enumerating failed.
    EnumerationFailed(WalletError),
    /// `count` devices were counted, and these are listed.
    Found { count: usize, devices: Vec<DetectedDevice<W>> },
}

pub const SUBSYSTEM_UNAVAILABLE: &'static str = "Ledger HID subsystem unavailable: ";

pub const NOTHING_FOUND: &'static str =
    "no Ledger device found (plug in, unlock, and open the Solana app)";

pub const NONE_AT_PATH: &'static str = "no Ledger device at host path `";

pub const CLOSING_QUOTE: &'static str = "`";

pub const SEVERAL_FOUND: &'static str =
    "multiple Ledger devices connected; pass host_device_path to select one:\n";

pub const UNKNOWN_PATH: &'static str = "<unknown path>";

pub const INDENT: &'static str = "  ";

pub const OPENING_PAREN: &'static str = " (";

pub const CLOSING_PAREN: &'static str = ")";

pub const NEWLINE: &'static str = "\n";

/// The Ledgers among `devices`, in the order they were listed.
pub open spec fn ledgers_of<W>(devices: Seq<DetectedDevice<W>>) -> Seq<LedgerHandle<W>>
    decreases devices.len(),
{
    if devices.len() == 0 {
        seq![]
    } else {
        match devices.last() {
            DetectedDevice::Ledger(handle) => ledgers_of(devices.drop_last()).push(handle),
            DetectedDevice::Other => ledgers_of(devices.drop_last()),
        }
    }
}

/// `handle` is the Ledger at the OS HID path `want`.
pub open spec fn is_at<W>(handle: LedgerHandle<W>, want: Seq<char>) -> bool {
    opt_view(handle.hid_path) == Some(want)
}

/// The first of `ledgers` whose OS HID path is `want`.
pub open spec fn first_at<W>(ledgers: Seq<LedgerHandle<W>>, want: Seq<char>) -> Option<W>
    decreases ledgers.len(),
{
    if ledgers.len() == 0 {
        None
    } else if is_at(ledgers[0], want) {
        Some(ledgers[0].wallet)
    } else {
        first_at(ledgers.skip(1), want)
    }
}

/// One line of the disambiguation hint.
pub open spec fn line<W>(handle: LedgerHandle<W>) -> Seq<char> {
    INDENT@ + (match handle.hid_path {
        Some(path) => path@,
        None => UNKNOWN_PATH@,
    }) + OPENING_PAREN@ + handle.pretty_path@ + CLOSING_PAREN@
}

/// The lines of all `ledgers`, separated by line breaks.
pub open spec fn listing<W>(ledgers: Seq<LedgerHandle<W>>) -> Seq<char>
    decreases ledgers.len(),
{
    if ledgers.len() == 0 {
        seq![]
    } else if ledgers.len() == 1 {
        line(ledgers[0])
    } else {
        listing(ledgers.drop_last()) + NEWLINE@ + line(ledgers.last())
    }
}

/// Which of `ledgers` a session is opened on: the one at the host path asked
/// for, or else the only one there is. The order of enumeration is unstable, so
/// several Ledgers and no host path is an error that lists them.
pub open spec fn selection<W>(ledgers: Seq<LedgerHandle<W>>, host: Option<Seq<char>>) -> Result<
    W,
    ErrorView,
> {
    match host {
        Some(want) => match first_at(ledgers, want) {
            Some(wallet) => Ok(wallet),
            None => Err(
                failure(ErrorKind::NotAvailable, NONE_AT_PATH@ + want + CLOSING_QUOTE@),
            ),
        },
        None => if ledgers.len() == 0 {
            Err(failure(ErrorKind::NotAvailable, NO_LEDGER@))
        } else if ledgers.len() == 1 {
            Ok(ledgers[0].wallet)
        } else {
            Err(failure(ErrorKind::NotAvailable, SEVERAL_FOUND@ + listing(ledgers)))
        },
    }
}

/// The wallet that a scan leads to, or why there is none.
pub open spec fn scan_result<W>(outcome: ScanOutcome<W>, host: Option<Seq<char>>) -> Result<
    W,
    ErrorView,
> {
    match outcome {
        ScanOutcome::SubsystemUnavailable(text) => Err(
            failure(ErrorKind::NotAvailable, SUBSYSTEM_UNAVAILABLE@ + text@),
        ),
        ScanOutcome::EnumerationFailed(e) => Err(wallet_failure(e)),
        ScanOutcome::Found { count, devices } => if count == 0 {
            Err(failure(ErrorKind::NotAvailable, NOTHING_FOUND@))
        } else {
            selection(ledgers_of(devices@), host)
        },
    }
}

fn keep_ledgers<W>(devices: Vec<DetectedDevice<W>>) -> (ledgers: Vec<LedgerHandle<W>>)
    ensures
        ledgers@ == ledgers_of(devices@),
{
    let ghost all = devices@;
    let mut ledgers: Vec<LedgerHandle<W>> = Vec::new();
    for device in it: devices
        invariant
            it.seq() == all,
            ledgers@ == ledgers_of(all.take(it.index() as int)),
    {
        assert(all.take(it.index() + 1).drop_last() =~= all.take(it.index() as int));
        assert(all.take(it.index() + 1).last() == device);
        match device {
            DetectedDevice::Ledger(handle) => ledgers.push(handle),
            DetectedDevice::Other => {},
        }
    }
    assert(all.take(all.len() as int) =~= all);
    ledgers
}

/// Taking the search for the first match from the front or from the back makes
/// no difference: an earlier match wins over everything behind it.
proof fn first_at_extends<W>(ledgers: Seq<LedgerHandle<W>>, i: int, want: Seq<char>)
    requires
        0 <= i < ledgers.len(),
    ensures
        first_at(ledgers.skip(i), want) == (if is_at(ledgers[i], want) {
            Some(ledgers[i].wallet)
        } else {
            first_at(ledgers.skip(i + 1), want)
        }),
{
    assert(ledgers.skip(i).skip(1) =~= ledgers.skip(i + 1));
}

fn take_at<W>(ledgers: Vec<LedgerHandle<W>>, want: &String) -> (found: Option<W>)
    ensures
        found == first_at(ledgers@, want@),
{
    let ghost all = ledgers@;
    let mut rest = ledgers;
    let mut found: Option<W> = None;
    assert(all.take(all.len() as int) =~= all);
    while rest.len() > 0
        invariant
            rest@.len() <= all.len(),
            rest@ == all.take(rest@.len() as int),
            found == first_at(all.skip(rest@.len() as int), want@),
        decreases rest@.len(),
    {
        let ghost n = rest@.len();
        match rest.pop() {
            Some(handle) => {
                proof {
                    assert(handle == all[n - 1]);
                    assert(rest@ =~= all.take(n - 1));
                    first_at_extends(all, n - 1, want@);
                }
                let here = match &handle.hid_path {
                    Some(path) => *path == *want,
                    None => false,
                };
                if here {
                    found = Some(handle.wallet);
                }
            },
            None => {},
        }
    }
    assert(all.skip(0) =~= all);
    found
}

fn line_of<W>(handle: &LedgerHandle<W>) -> (text: String)
    ensures
        text@ == line(*handle),
{
    let mut text = INDENT.to_owned();
    match &handle.hid_path {
        Some(path) => text.append(path.as_str()),
        None => text.append(UNKNOWN_PATH),
    }
    text.append(OPENING_PAREN);
    text.append(handle.pretty_path.as_str());
    text.append(CLOSING_PAREN);
    text
}

fn listing_of<W>(ledgers: &Vec<LedgerHandle<W>>) -> (text: String)
    ensures
        text@ == listing(ledgers@),
{
    let mut text = String::new();
    let mut i: usize = 0;
    while i < ledgers.len()
        invariant
            i <= ledgers@.len(),
            text@ == listing(ledgers@.take(i as int)),
        decreases ledgers@.len() - i,
    {
        proof {
            let next = ledgers@.take(i + 1);
            assert(next.drop_last() =~= ledgers@.take(i as int));
            assert(next.last() == ledgers@[i as int]);
        }
        if i > 0 {
            text.append(NEWLINE);
        }
        let one = line_of(&ledgers[i]);
        text.append(one.as_str());
        proof {
            if i == 0 {
                assert(text@ =~= line(ledgers@[0]));
            }
        }
        i += 1;
    }
    assert(ledgers@.take(ledgers@.len() as int) =~= ledgers@);
    text
}

/// Choose the Ledger to open a session on.
pub fn select_ledger<W>(ledgers: Vec<LedgerHandle<W>>, host: &Option<String>) -> (r: Result<
    W,
    SignerError,
>)
    ensures
        selection(ledgers@, opt_view(*host)) == (match r {
            Ok(wallet) => Ok(wallet),
            Err(e) => Err(e@),
        }),
{
    match host {
        Some(want) => match take_at(ledgers, want) {
            Some(wallet) => Ok(wallet),
            None => Err(
                SignerError::NotAvailable(join3(NONE_AT_PATH, want.as_str(), CLOSING_QUOTE)),
            ),
        },
        None => {
            let mut ledgers = ledgers;
            if ledgers.len() > 1 {
                let list = listing_of(&ledgers);
                return Err(SignerError::NotAvailable(join(SEVERAL_FOUND, list.as_str())));
            }
            match ledgers.pop() {
                Some(handle) => Ok(handle.wallet),
                None => Err(SignerError::NotAvailable(NO_LEDGER.to_owned())),
            }
        },
    }
}

/// Decide, from what enumeration found, which wallet to open a session on.
pub fn choose_wallet<W>(outcome: ScanOutcome<W>, host: &Option<String>) -> (r: Result<
    W,
    SignerError,
>)
    ensures
        scan_result(outcome, opt_view(*host)) == (match r {
            Ok(wallet) => Ok(wallet),
            Err(e) => Err(e@),
        }),
{
    match outcome {
        ScanOutcome::SubsystemUnavailable(text) => Err(
            SignerError::NotAvailable(join(SUBSYSTEM_UNAVAILABLE, text.as_str())),
        ),
        ScanOutcome::EnumerationFailed(e) => Err(map_rw_err(e)),
        ScanOutcome::Found { count, devices } => {
            if count == 0 {
                Err(SignerError::NotAvailable(NOTHING_FOUND.to_owned()))
            } else {
                select_ledger(keep_ledgers(devices), host)
            }
        },
    }
}

/// USB vendor id of Ledger.
pub const LEDGER_VID: u16 = 0x2c97;

/// Whether a Ledger is on the bus, given the vendor ids of all HID devices, or
/// `None` where they could not be listed.
pub fn any_ledger_attached(vendor_ids: Option<Vec<u16>>) -> (attached: bool)
    ensures
        attached == (vendor_ids matches Some(ids) && ids@.contains(LEDGER_VID)),
{
    match vendor_ids {
        Some(ids) => {
            let mut i: usize = 0;
            while i < ids.len()
                invariant
                    vendor_ids == Some(ids),
                    i <= ids@.len(),
                    forall|j: int| 0 <= j < i ==> ids@[j] != LEDGER_VID,
                decreases ids@.len() - i,
            {
                if ids[i] == LEDGER_VID {
                    assert(ids@.contains(LEDGER_VID));
                    return true;
                }
                i += 1;
            }
            false
        },
        None => false,
    }
}

/// A session is only ever opened on a Ledger that enumeration listed. One asked
/// for by host path is opened on a Ledger at that path, and is refused only
/// where no Ledger is there.
pub proof fn selection_is_listed<W>(ledgers: Seq<LedgerHandle<W>>, host: Option<Seq<char>>)
    ensures
        selection(ledgers, host) matches Ok(wallet) ==> exists|i: int|
            0 <= i < ledgers.len() && #[trigger] ledgers[i].wallet == wallet && (host matches Some(
                want,
            ) ==> is_at(ledgers[i], want)),
        selection(ledgers, host) is Err && host is Some ==> forall|i: int|
            0 <= i < ledgers.len() ==> !is_at(#[trigger] ledgers[i], host->0),
{
    match host {
        Some(want) => first_at_is_listed(ledgers, want),
        None => {
            if ledgers.len() == 1 {
                assert(ledgers[0].wallet == ledgers[0].wallet);
            }
        },
    }
}

proof fn first_at_is_listed<W>(ledgers: Seq<LedgerHandle<W>>, want: Seq<char>)
    ensures
        first_at(ledgers, want) matches Some(wallet) ==> exists|i: int|
            0 <= i < ledgers.len() && #[trigger] ledgers[i].wallet == wallet && is_at(
                ledgers[i],
                want,
            ),
        first_at(ledgers, want) is None ==> forall|i: int|
            0 <= i < ledgers.len() ==> !is_at(#[trigger] ledgers[i], want),
    decreases ledgers.len(),
{
    if ledgers.len() > 0 {
        let rest = ledgers.skip(1);
        first_at_is_listed(rest, want);
        if is_at(ledgers[0], want) {
            assert(ledgers[0].wallet == ledgers[0].wallet);
        } else {
            if first_at(rest, want) is Some {
                let wallet = first_at(rest, want)->0;
                let j = choose|j: int|
                    0 <= j < rest.len() && #[trigger] rest[j].wallet == wallet && is_at(
                        rest[j],
                        want,
                    );
                assert(ledgers[j + 1] == rest[j]);
                assert(ledgers[j + 1].wallet == wallet);
            } else {
                assert forall|i: int| 0 <= i < ledgers.len() implies !is_at(
                    #[trigger] ledgers[i],
                    want,
                ) by {
                    if i > 0 {
                        assert(rest[i - 1] == ledgers[i]);
                    }
                }
            }
        }
    }
}

/// Without a host path nothing is ever picked silently among several Ledgers.
pub proof fn several_ledgers_need_a_host_path<W>(ledgers: Seq<LedgerHandle<W>>)
    ensures
        selection(ledgers, None) is Ok <==> ledgers.len() == 1,
{
}

/// `kept` holds the Ledgers among `devices`, at the positions `at`: all of them,
/// each once, in the order they were listed.
pub open spec fn keeps_all_at<W>(
    devices: Seq<DetectedDevice<W>>,
    kept: Seq<LedgerHandle<W>>,
    at: Seq<int>,
) -> bool {
    &&& at.len() == kept.len()
    &&& forall|k: int|
        0 <= k < at.len() ==> 0 <= #[trigger] at[k] < devices.len() && devices[at[k]]
            == DetectedDevice::Ledger(kept[k])
    &&& forall|k: int, l: int| 0 <= k < l < at.len() ==> #[trigger] at[k] < #[trigger] at[l]
    &&& forall|i: int|
        0 <= i < devices.len() && (#[trigger] devices[i]) is Ledger ==> at.contains(i)
}

/// Selection works on every Ledger that enumeration listed: none is left out, none
/// is taken twice, and they stay in the order they were listed.
pub proof fn every_listed_ledger_is_kept<W>(devices: Seq<DetectedDevice<W>>) -> (at: Seq<int>)
    ensures
        keeps_all_at(devices, ledgers_of(devices), at),
    decreases devices.len(),
{
    if devices.len() == 0 {
        seq![]
    } else {
        let rest = devices.drop_last();
        let before = every_listed_ledger_is_kept(rest);
        let n = devices.len() - 1;
        let kept = ledgers_of(devices);
        let at = if devices.last() is Ledger {
            before.push(n)
        } else {
            before
        };
        assert forall|k: int| 0 <= k < at.len() implies 0 <= #[trigger] at[k] < devices.len()
            && devices[at[k]] == DetectedDevice::Ledger(kept[k]) by {
            if k < before.len() {
                assert(before[k] == at[k]);
                assert(rest[before[k]] == devices[before[k]]);
            }
        }
        assert forall|k: int, l: int| 0 <= k < l < at.len() implies #[trigger] at[k]
            < #[trigger] at[l] by {
            assert(before[k] == at[k]);
            if l < before.len() {
                assert(before[l] == at[l]);
            }
        }
        assert forall|i: int|
            0 <= i < devices.len() && (#[trigger] devices[i]) is Ledger implies at.contains(i) by {
            if i < n {
                assert(rest[i] == devices[i]);
                assert(before.contains(i));
                let k = choose|k: int| 0 <= k < before.len() && before[k] == i;
                assert(at[k] == i);
            } else {
                assert(at[before.len() as int] == i);
            }
        }
        at
    }
}

/// Position `i` of `devices` is a Ledger at the OS HID path `want`.
pub open spec fn listed_at<W>(
    devices: Seq<DetectedDevice<W>>,
    i: int,
    want: Seq<char>,
) -> bool {
    &&& 0 <= i < devices.len()
    &&& devices[i] matches DetectedDevice::Ledger(handle)
    &&& handle.hid_path matches Some(path)
    &&& path@ == want
}

/// Without a host path, a scan that found devices leads to a wallet exactly if one
/// position, and no other, holds a Ledger; and then to the wallet there. None among
/// several is picked silently.
pub proof fn without_a_host_path_the_only_ledger_is_opened<W>(
    count: usize,
    devices: Vec<DetectedDevice<W>>,
)
    requires
        count > 0,
    ensures
        forall|i: int, j: int|
            0 <= i < j < devices@.len() && (#[trigger] devices@[i]) is Ledger && (
            #[trigger] devices@[j]) is Ledger ==> scan_result(
                ScanOutcome::Found { count, devices },
                None,
            ) is Err,
        (forall|i: int| 0 <= i < devices@.len() ==> !((#[trigger] devices@[i]) is Ledger))
            ==> scan_result(ScanOutcome::Found { count, devices }, None) == Err::<W, ErrorView>(
            ErrorView { kind: ErrorKind::NotAvailable, detail: "no Ledger device found"@ },
        ),
        forall|i: int|
            0 <= i < devices@.len() && (#[trigger] devices@[i]) is Ledger && (forall|j: int|
                0 <= j < devices@.len() && j != i ==> !((#[trigger] devices@[j]) is Ledger))
                ==> scan_result(ScanOutcome::Found { count, devices }, None) == Ok::<W, ErrorView>(
                devices@[i]->Ledger_0.wallet,
            ),
{
    let all = devices@;
    let kept = ledgers_of(all);
    let at = every_listed_ledger_is_kept(all);
    let outcome = ScanOutcome::Found { count, devices };
    assert forall|i: int, j: int|
        0 <= i < j < all.len() && (#[trigger] all[i]) is Ledger && (
        #[trigger] all[j]) is Ledger implies scan_result(outcome, None) is Err by {
        assert(at.contains(i) && at.contains(j));
        let k = choose|k: int| 0 <= k < at.len() && at[k] == i;
        let l = choose|l: int| 0 <= l < at.len() && at[l] == j;
        assert(k != l);
        assert(kept.len() > 1);
    }
    if forall|i: int| 0 <= i < all.len() ==> !((#[trigger] all[i]) is Ledger) {
        if at.len() > 0 {
            assert(all[at[0]] is Ledger);
        }
    }
    assert forall|i: int|
        0 <= i < all.len() && (#[trigger] all[i]) is Ledger && (forall|j: int|
            0 <= j < all.len() && j != i ==> !((#[trigger] all[j])
                is Ledger)) implies scan_result(outcome, None) == Ok::<W, ErrorView>(
        all[i]->Ledger_0.wallet,
    ) by {
        assert(at.contains(i));
        let k = choose|k: int| 0 <= k < at.len() && at[k] == i;
        if at.len() > 1 {
            assert(at[0] < at[1]);
            assert(all[at[0]] is Ledger && all[at[1]] is Ledger);
        }
    }
}

/// With a host path, a scan that found devices leads to a wallet exactly if a
/// listed Ledger is at that path; and then to the first one there, however many
/// others are attached.
pub proof fn with_a_host_path_the_ledger_there_is_opened<W>(
    count: usize,
    devices: Vec<DetectedDevice<W>>,
    want: Seq<char>,
)
    requires
        count > 0,
    ensures
        forall|i: int|
            #[trigger] listed_at(devices@, i, want) && (forall|j: int|
                0 <= j < i ==> !(#[trigger] listed_at(devices@, j, want))) ==> scan_result(
                ScanOutcome::Found { count, devices },
                Some(want),
            ) == Ok::<W, ErrorView>(devices@[i]->Ledger_0.wallet),
        (forall|i: int| !(#[trigger] listed_at(devices@, i, want))) ==> scan_result(
            ScanOutcome::Found { count, devices },
            Some(want),
        ) == Err::<W, ErrorView>(
            ErrorView {
                kind: ErrorKind::NotAvailable,
                detail: "no Ledger device at host path `"@ + want + "`"@,
            },
        ),
        scan_result(ScanOutcome::Found { count, devices }, Some(want)) is Ok <==> exists|i: int|
            #[trigger] listed_at(devices@, i, want),
{
    let all = devices@;
    let kept = ledgers_of(all);
    let at = every_listed_ledger_is_kept(all);
    first_at_is_listed(kept, want);
    assert forall|k: int| 0 <= k < kept.len() implies (is_at(#[trigger] kept[k], want)
        <==> listed_at(all, at[k], want)) by {
        assert(all[at[k]] == DetectedDevice::Ledger(kept[k]));
    }
    assert forall|i: int|
        #[trigger] listed_at(all, i, want) && (forall|j: int|
            0 <= j < i ==> !(#[trigger] listed_at(all, j, want))) implies first_at(kept, want)
        == Some(all[i]->Ledger_0.wallet) by {
        assert(at.contains(i));
        let k = choose|k: int| 0 <= k < at.len() && at[k] == i;
        assert forall|l: int| 0 <= l < k implies !is_at(#[trigger] kept[l], want) by {
            assert(at[l] < at[k]);
            assert(!listed_at(all, at[l], want));
        }
        first_at_skips(kept, k, want);
    }
    if exists|i: int| #[trigger] listed_at(all, i, want) {
        let i = choose|i: int| #[trigger] listed_at(all, i, want);
        assert(at.contains(i));
        let k = choose|k: int| 0 <= k < at.len() && at[k] == i;
        assert(is_at(kept[k], want));
    } else {
        assert forall|k: int| 0 <= k < kept.len() implies !is_at(#[trigger] kept[k], want) by {
            assert(!listed_at(all, at[k], want));
        }
        if first_at(kept, want) is Some {
            let wallet = first_at(kept, want)->0;
            let k = choose|k: int|
                0 <= k < kept.len() && #[trigger] kept[k].wallet == wallet && is_at(kept[k], want);
            assert(!is_at(kept[k], want));
        }
    }
}

proof fn first_at_skips<W>(ledgers: Seq<LedgerHandle<W>>, k: int, want: Seq<char>)
    requires
        0 <= k < ledgers.len(),
        is_at(ledgers[k], want),
        forall|l: int| 0 <= l < k ==> !is_at(#[trigger] ledgers[l], want),
    ensures
        first_at(ledgers, want) == Some(ledgers[k].wallet),
    decreases k,
{
    if k > 0 {
        let rest = ledgers.skip(1);
        assert(rest[k - 1] == ledgers[k]);
        assert forall|l: int| 0 <= l < k - 1 implies !is_at(#[trigger] rest[l], want) by {
            assert(rest[l] == ledgers[l + 1]);
        }
        first_at_skips(rest, k - 1, want);
    }
}

/// A scan that did not get as far as devices says so, and so does one that counted
/// none, whatever is listed.
pub proof fn a_scan_without_devices_says_why<W>(
    text: String,
    e: WalletError,
    devices: Vec<DetectedDevice<W>>,
    host: Option<Seq<char>>,
)
    ensures
        scan_result(ScanOutcome::<W>::SubsystemUnavailable(text), host) == Err::<W, ErrorView>(
            ErrorView {
                kind: ErrorKind::NotAvailable,
                detail: "Ledger HID subsystem unavailable: "@ + text@,
            },
        ),
        scan_result(ScanOutcome::<W>::EnumerationFailed(e), host) == Err::<W, ErrorView>(
            wallet_failure(e),
        ),
        scan_result(ScanOutcome::Found { count: 0, devices }, host) == Err::<W, ErrorView>(
            ErrorView {
                kind: ErrorKind::NotAvailable,
                detail: "no Ledger device found (plug in, unlock, and open the Solana app)"@,
            },
        ),
{
}

/// The hint that several Ledgers give lists each on a line of its own, with its OS
/// HID path where it has one and its locator, in the order they were listed.
pub proof fn the_hint_lists_every_ledger<W>(
    ledgers: Seq<LedgerHandle<W>>,
    handle: LedgerHandle<W>,
)
    requires
        ledgers.len() > 0,
    ensures
        listing(seq![handle]) == "  "@ + (match handle.hid_path {
            Some(path) => path@,
            None => "<unknown path>"@,
        }) + " ("@ + handle.pretty_path@ + ")"@,
        listing(ledgers.push(handle)) == listing(ledgers) + "\n"@ + listing(seq![handle]),
        selection(ledgers.push(handle), None) == Err::<W, ErrorView>(
            ErrorView {
                kind: ErrorKind::NotAvailable,
                detail:
                    "multiple Ledger devices connected; pass host_device_path to select one:\n"@
                    + listing(ledgers.push(handle)),
            },
        ),
{
    assert(ledgers.push(handle).drop_last() =~= ledgers);
}

} // verus!
