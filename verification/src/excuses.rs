//! The two curated excuse tables, their sentinels, and their invariants.
//!
//! Each table is authored data: an ordered list of short, non-empty text
//! entries. The spec-level tables are the reference; the executable builders
//! return vectors whose contents are proved equal to them, and the lemmas
//! state the table invariants: both tables are non-empty, every entry is a
//! non-empty excuse under the length bound, and no entry equals the fallback
//! sentinel of its table.

use vstd::prelude::*;

verus! {

/// The character sequences of a sequence of string slices.
pub open spec fn views_of(s: Seq<&str>) -> Seq<Seq<char>> {
    s.map_values(|t: &str| t@)
}

/// A single excuse is well formed when it is non-empty and under the bound.
pub open spec fn excuse_ok(e: Seq<char>) -> bool {
    0 < e.len() < crate::EXCUSE_LEN_BOUND
}

/// A table is well formed when every entry is a well-formed excuse.
pub open spec fn table_ok(t: Seq<Seq<char>>) -> bool {
    forall|i: int| 0 <= i < t.len() ==> excuse_ok(#[trigger] t[i])
}

/// Fallback returned by the classic selector only if its table were empty.
pub open spec fn classic_sentinel() -> Seq<char> {
    "No excuse found, try again later"@
}

/// Fallback returned by the modern selector only if its table were empty.
pub open spec fn modern_sentinel() -> Seq<char> {
    "Excuse engine not initialized. Please try again later."@
}

/// The classic table: hardware, cabling and machine-room troubles.
pub open spec fn classic_spec() -> Seq<Seq<char>> {
    seq![
        "static from nylon underwear"@,
        "solar flares are disrupting the mainframe"@,
        "the backup tape has gone missing again"@,
        "someone unplugged the server to vacuum the machine room"@,
        "electrons are flowing the wrong way today"@,
        "the network cable was chewed by mice"@,
        "a capacitor in the power supply gave up the ghost"@,
        "sunspots are interfering with the modem pool"@,
        "the terminal room is too humid for the equipment"@,
        "somebody set the clock back and confused the scheduler"@,
        "the punch card reader jammed on a bent card"@,
        "the token fell off the token ring"@,
        "dust bunnies have shorted the motherboard"@,
        "the printer queue backed up into the swap space"@,
        "a janitor pressed the big red switch"@,
        "the phone company is rerouting our leased line"@,
        "cosmic rays flipped a bit in the boot sector"@,
        "the air conditioning failed and the CPU is sulking"@,
        "the floppy drive head needs realignment"@,
        "a squirrel got into the transformer outside"@,
        "the tape robot is holding the backups hostage"@,
        "the SCSI chain was terminated in the wrong place"@,
        "the monitor degaussed itself at an inopportune moment"@,
        "someone borrowed the null modem cable"@,
        "the UPS battery ran out during the lightning storm"@,
        "the server room door lock demagnetized the disks"@,
        "a loose wire in the patch panel is arcing"@,
        "the BIOS battery died and the machine forgot who it is"@,
        "the coffee machine and the router share a fuse"@,
        "the microwave in the break room jams the wireless bridge"@,
        "the line printer ribbon wrapped itself around the platen"@,
        "an intern reformatted the wrong drive"@,
        "the modem is dialing the weather service by mistake"@,
        "the fax machine negotiated a hostile takeover of the phone line"@,
        "the keyboard buffer overflowed onto the floor"@,
        "a forklift clipped the conduit behind the loading dock"@,
        "the disk pack was stored next to a magnet"@,
        "the mainframe is still running yesterday's batch job"@,
        "the cleaning crew waxed over the floor vents again"@,
        "the serial port is only accepting parallel requests"@,
    ]
}

/// The modern table: cloud, pipeline and remote-work troubles.
pub open spec fn modern_spec() -> Seq<Seq<char>> {
    seq![
        "the cloud region is experiencing an availability incident"@,
        "kubernetes rescheduled the pod onto a node that does not exist"@,
        "the certificate expired at midnight and nobody got paged"@,
        "a dependency three levels deep was unpublished this morning"@,
        "the CI pipeline is stuck waiting for a runner"@,
        "someone force-pushed over the release branch"@,
        "the feature flag service is flagging its own features"@,
        "DNS propagation is taking longer than the heat death of the universe"@,
        "the serverless function ran out of server"@,
        "the container image works on my machine"@,
        "autoscaling scaled everything down to zero to save costs"@,
        "the VPN split the tunnel in the wrong place"@,
        "the message queue is replaying last year's events"@,
        "a retro is being held about the retro that broke the sprint"@,
        "the monorepo merge queue is backed up past lunch"@,
    ]
}

/// The classic table as a vector, equal entry for entry to its spec.
pub fn classic_table() -> (t: Vec<&'static str>)
    ensures
        views_of(t@) == classic_spec(),
        t@.len() == classic_spec().len(),
{
    let mut t: Vec<&'static str> = Vec::new();
    t.push("static from nylon underwear");
    t.push("solar flares are disrupting the mainframe");
    t.push("the backup tape has gone missing again");
    t.push("someone unplugged the server to vacuum the machine room");
    t.push("electrons are flowing the wrong way today");
    t.push("the network cable was chewed by mice");
    t.push("a capacitor in the power supply gave up the ghost");
    t.push("sunspots are interfering with the modem pool");
    t.push("the terminal room is too humid for the equipment");
    t.push("somebody set the clock back and confused the scheduler");
    t.push("the punch card reader jammed on a bent card");
    t.push("the token fell off the token ring");
    t.push("dust bunnies have shorted the motherboard");
    t.push("the printer queue backed up into the swap space");
    t.push("a janitor pressed the big red switch");
    t.push("the phone company is rerouting our leased line");
    t.push("cosmic rays flipped a bit in the boot sector");
    t.push("the air conditioning failed and the CPU is sulking");
    t.push("the floppy drive head needs realignment");
    t.push("a squirrel got into the transformer outside");
    t.push("the tape robot is holding the backups hostage");
    t.push("the SCSI chain was terminated in the wrong place");
    t.push("the monitor degaussed itself at an inopportune moment");
    t.push("someone borrowed the null modem cable");
    t.push("the UPS battery ran out during the lightning storm");
    t.push("the server room door lock demagnetized the disks");
    t.push("a loose wire in the patch panel is arcing");
    t.push("the BIOS battery died and the machine forgot who it is");
    t.push("the coffee machine and the router share a fuse");
    t.push("the microwave in the break room jams the wireless bridge");
    t.push("the line printer ribbon wrapped itself around the platen");
    t.push("an intern reformatted the wrong drive");
    t.push("the modem is dialing the weather service by mistake");
    t.push("the fax machine negotiated a hostile takeover of the phone line");
    t.push("the keyboard buffer overflowed onto the floor");
    t.push("a forklift clipped the conduit behind the loading dock");
    t.push("the disk pack was stored next to a magnet");
    t.push("the mainframe is still running yesterday's batch job");
    t.push("the cleaning crew waxed over the floor vents again");
    t.push("the serial port is only accepting parallel requests");
    proof {
        assert(views_of(t@) =~= classic_spec());
    }
    t
}

/// The modern table as a vector, equal entry for entry to its spec.
pub fn modern_table() -> (t: Vec<&'static str>)
    ensures
        views_of(t@) == modern_spec(),
        t@.len() == modern_spec().len(),
{
    let mut t: Vec<&'static str> = Vec::new();
    t.push("the cloud region is experiencing an availability incident");
    t.push("kubernetes rescheduled the pod onto a node that does not exist");
    t.push("the certificate expired at midnight and nobody got paged");
    t.push("a dependency three levels deep was unpublished this morning");
    t.push("the CI pipeline is stuck waiting for a runner");
    t.push("someone force-pushed over the release branch");
    t.push("the feature flag service is flagging its own features");
    t.push("DNS propagation is taking longer than the heat death of the universe");
    t.push("the serverless function ran out of server");
    t.push("the container image works on my machine");
    t.push("autoscaling scaled everything down to zero to save costs");
    t.push("the VPN split the tunnel in the wrong place");
    t.push("the message queue is replaying last year's events");
    t.push("a retro is being held about the retro that broke the sprint");
    t.push("the monorepo merge queue is backed up past lunch");
    proof {
        assert(views_of(t@) =~= modern_spec());
    }
    t
}

/// Law: the classic table is non-empty, every entry is a non-empty excuse
/// under the length bound, and no entry is the classic sentinel.
pub proof fn lemma_classic_table_ok()
    ensures
        classic_spec().len() > 0,
        table_ok(classic_spec()),
        forall|i: int| 0 <= i < classic_spec().len()
            ==> #[trigger] classic_spec()[i] != classic_sentinel(),
{
    reveal_strlit("No excuse found, try again later");
    reveal_strlit("static from nylon underwear");
    reveal_strlit("solar flares are disrupting the mainframe");
    reveal_strlit("the backup tape has gone missing again");
    reveal_strlit("someone unplugged the server to vacuum the machine room");
    reveal_strlit("electrons are flowing the wrong way today");
    reveal_strlit("the network cable was chewed by mice");
    reveal_strlit("a capacitor in the power supply gave up the ghost");
    reveal_strlit("sunspots are interfering with the modem pool");
    reveal_strlit("the terminal room is too humid for the equipment");
    reveal_strlit("somebody set the clock back and confused the scheduler");
    reveal_strlit("the punch card reader jammed on a bent card");
    reveal_strlit("the token fell off the token ring");
    reveal_strlit("dust bunnies have shorted the motherboard");
    reveal_strlit("the printer queue backed up into the swap space");
    reveal_strlit("a janitor pressed the big red switch");
    reveal_strlit("the phone company is rerouting our leased line");
    reveal_strlit("cosmic rays flipped a bit in the boot sector");
    reveal_strlit("the air conditioning failed and the CPU is sulking");
    reveal_strlit("the floppy drive head needs realignment");
    reveal_strlit("a squirrel got into the transformer outside");
    reveal_strlit("the tape robot is holding the backups hostage");
    reveal_strlit("the SCSI chain was terminated in the wrong place");
    reveal_strlit("the monitor degaussed itself at an inopportune moment");
    reveal_strlit("someone borrowed the null modem cable");
    reveal_strlit("the UPS battery ran out during the lightning storm");
    reveal_strlit("the server room door lock demagnetized the disks");
    reveal_strlit("a loose wire in the patch panel is arcing");
    reveal_strlit("the BIOS battery died and the machine forgot who it is");
    reveal_strlit("the coffee machine and the router share a fuse");
    reveal_strlit("the microwave in the break room jams the wireless bridge");
    reveal_strlit("the line printer ribbon wrapped itself around the platen");
    reveal_strlit("an intern reformatted the wrong drive");
    reveal_strlit("the modem is dialing the weather service by mistake");
    reveal_strlit("the fax machine negotiated a hostile takeover of the phone line");
    reveal_strlit("the keyboard buffer overflowed onto the floor");
    reveal_strlit("a forklift clipped the conduit behind the loading dock");
    reveal_strlit("the disk pack was stored next to a magnet");
    reveal_strlit("the mainframe is still running yesterday's batch job");
    reveal_strlit("the cleaning crew waxed over the floor vents again");
    reveal_strlit("the serial port is only accepting parallel requests");
    assert forall|i: int| 0 <= i < classic_spec().len()
        implies excuse_ok(#[trigger] classic_spec()[i])
            && classic_spec()[i] != classic_sentinel() by {
        assert(classic_spec()[i].len() != classic_sentinel().len());
    }
}

/// Law: the modern table is non-empty, every entry is a non-empty excuse
/// under the length bound, and no entry is the modern sentinel.
pub proof fn lemma_modern_table_ok()
    ensures
        modern_spec().len() > 0,
        table_ok(modern_spec()),
        forall|i: int| 0 <= i < modern_spec().len()
            ==> #[trigger] modern_spec()[i] != modern_sentinel(),
{
    reveal_strlit("Excuse engine not initialized. Please try again later.");
    reveal_strlit("the cloud region is experiencing an availability incident");
    reveal_strlit("kubernetes rescheduled the pod onto a node that does not exist");
    reveal_strlit("the certificate expired at midnight and nobody got paged");
    reveal_strlit("a dependency three levels deep was unpublished this morning");
    reveal_strlit("the CI pipeline is stuck waiting for a runner");
    reveal_strlit("someone force-pushed over the release branch");
    reveal_strlit("the feature flag service is flagging its own features");
    reveal_strlit("DNS propagation is taking longer than the heat death of the universe");
    reveal_strlit("the serverless function ran out of server");
    reveal_strlit("the container image works on my machine");
    reveal_strlit("autoscaling scaled everything down to zero to save costs");
    reveal_strlit("the VPN split the tunnel in the wrong place");
    reveal_strlit("the message queue is replaying last year's events");
    reveal_strlit("a retro is being held about the retro that broke the sprint");
    reveal_strlit("the monorepo merge queue is backed up past lunch");
    assert forall|i: int| 0 <= i < modern_spec().len()
        implies excuse_ok(#[trigger] modern_spec()[i])
            && modern_spec()[i] != modern_sentinel() by {
        assert(modern_spec()[i].len() != modern_sentinel().len());
    }
}

} // verus!
