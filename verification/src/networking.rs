//! Set-up of a peer-to-peer rollback session: which players are local and when to start.
use vstd::prelude::*;

verus! {

/// Number of players of a session.
pub const NUM_PLAYERS: usize = 2;

/// The handles (player numbers) of the players on this machine.
pub struct LocalHandles {
    pub handles: Vec<usize>,
}

/// The handles `i < n` whose entry of `local` is true, in increasing order.
pub open spec fn local_handles_upto(local: Seq<bool>, n: int) -> Seq<usize>
    decreases n,
{
    if n <= 0 {
        seq![]
    } else {
        local_handles_upto(local, n - 1) + if local[n - 1] {
            seq![(n - 1) as usize]
        } else {
            seq![]
        }
    }
}

/// The handles of all entries of `local` that are true, in increasing order.
pub open spec fn local_handles_of(local: Seq<bool>) -> Seq<usize> {
    local_handles_upto(local, local.len() as int)
}

/// Every handle listed is local, and in range.
pub proof fn lemma_local_handles_are_local(local: Seq<bool>, n: int)
    requires
        0 <= n <= local.len(),
        local.len() <= usize::MAX,
    ensures
        forall|k: int|
            0 <= k < local_handles_upto(local, n).len() ==> {
                let h = #[trigger] local_handles_upto(local, n)[k];
                0 <= h < n && local[h as int]
            },
    decreases n,
{
    if n > 0 {
        lemma_local_handles_are_local(local, n - 1);
        let prev = local_handles_upto(local, n - 1);
        let cur = local_handles_upto(local, n);
        assert forall|k: int| 0 <= k < cur.len() implies {
            let h = #[trigger] cur[k];
            0 <= h < n && local[h as int]
        } by {
            if k < prev.len() {
                assert(cur[k] == prev[k]);
            } else {
                assert(local[n - 1]);
                assert(cur[k] == (n - 1) as usize);
            }
        }
    }
}

/// The local handles are exactly the numbers of the local players, each once, in increasing
/// order.
pub proof fn lemma_local_handles_exact(local: Seq<bool>, n: int)
    requires
        0 <= n <= local.len(),
        local.len() <= usize::MAX,
    ensures
        forall|h: int|
            0 <= h < n ==> (local[h] <==> local_handles_upto(local, n).contains(h as usize)),
        forall|a: int, b: int|
            0 <= a < b < local_handles_upto(local, n).len() ==> local_handles_upto(local, n)[a]
                < local_handles_upto(local, n)[b],
        forall|k: int|
            0 <= k < local_handles_upto(local, n).len() ==> #[trigger] local_handles_upto(local, n)[k]
                < n,
    decreases n,
{
    lemma_local_handles_are_local(local, n);
    if n > 0 {
        lemma_local_handles_exact(local, n - 1);
        let prev = local_handles_upto(local, n - 1);
        let cur = local_handles_upto(local, n);
        assert forall|k: int| 0 <= k < prev.len() implies cur[k] == prev[k] by {}
        assert forall|h: int|
            0 <= h < n implies (local[h] <==> cur.contains(h as usize)) by {
            if h < n - 1 {
                if local[h] {
                    let k = choose|k: int| 0 <= k < prev.len() && prev[k] == h as usize;
                    assert(cur[k] == h as usize);
                }
                if cur.contains(h as usize) {
                    let k = choose|k: int| 0 <= k < cur.len() && cur[k] == h as usize;
                    if k < prev.len() {
                        assert(prev[k] == h as usize);
                    } else {
                        assert(cur[k] == (n - 1) as usize);
                    }
                }
            } else {
                if local[h] {
                    assert(cur[prev.len() as int] == h as usize);
                }
                if cur.contains(h as usize) {
                    let k = choose|k: int| 0 <= k < cur.len() && cur[k] == h as usize;
                    if k < prev.len() {
                        assert(prev[k] < n - 1);
                    }
                }
            }
        }
    }
}

/// The handles of the entries of `local` that are true.
fn collect_local_handles(local: &Vec<bool>) -> (r: LocalHandles)
    ensures
        r.handles@ == local_handles_of(local@),
{
    let mut handles: Vec<usize> = Vec::new();
    let mut i: usize = 0;
    while i < local.len()
        invariant
            i <= local.len(),
            handles@ == local_handles_upto(local@, i as int),
        decreases local.len() - i,
    {
        if local[i] {
            handles.push(i);
        }
        i += 1;
    }
    LocalHandles { handles }
}

/// Whether `addr` is the text `localhost`.
fn is_localhost(addr: &str) -> (r: bool)
    ensures
        r == (addr@ == "localhost"@),
{
    let local = "localhost";
    proof {
        reveal_strlit("localhost");
    }
    let n = addr.unicode_len();
    if n != local.unicode_len() {
        return false;
    }
    let mut i: usize = 0;
    while i < n
        invariant
            i <= n,
            n == addr@.len(),
            n == local@.len(),
            local@ == "localhost"@,
            forall|k: int| 0 <= k < i ==> addr@[k] == local@[k],
        decreases n - i,
    {
        if addr.get_char(i) != local.get_char(i) {
            return false;
        }
        i += 1;
    }
    assert(addr@ =~= local@);
    true
}

/// Where a player of a native session plays.
#[derive(Debug, Clone, Copy, PartialEq, Eq, Structural)]
pub enum PlayerSlot {
    /// On this machine.
    Local,
    /// On the machine at the player's address.
    Remote,
}

/// The players of a native session, given on the command line by address, the word `localhost`
/// naming this machine: player `i` is local exactly when its address is `localhost`, and the
/// local handles are those players' numbers.
pub fn start_session(players: &Vec<String>) -> (r: (Vec<PlayerSlot>, LocalHandles))
    requires
        players.len() == NUM_PLAYERS,
    ensures
        r.0.len() == players.len(),
        forall|i: int|
            0 <= i < players.len() ==> (#[trigger] r.0@[i] == PlayerSlot::Local <==> players@[i]@
                == "localhost"@),
        r.1.handles@ == local_handles_of(
            Seq::new(players.len() as nat, |i: int| players@[i]@ == "localhost"@),
        ),
{
    let mut slots: Vec<PlayerSlot> = Vec::new();
    let mut local: Vec<bool> = Vec::new();
    let mut i: usize = 0;
    while i < players.len()
        invariant
            i <= players.len(),
            slots.len() == i,
            local.len() == i,
            forall|k: int|
                0 <= k < i ==> (#[trigger] slots@[k] == PlayerSlot::Local <==> players@[k]@
                    == "localhost"@),
            forall|k: int| 0 <= k < i ==> #[trigger] local@[k] == (players@[k]@ == "localhost"@),
        decreases players.len() - i,
    {
        if is_localhost(players[i].as_str()) {
            slots.push(PlayerSlot::Local);
            local.push(true);
        } else {
            slots.push(PlayerSlot::Remote);
            local.push(false);
        }
        i += 1;
    }
    assert(local@ =~= Seq::new(players.len() as nat, |i: int| players@[i]@ == "localhost"@));
    let handles = collect_local_handles(&local);
    (slots, handles)
}

/// The kind of a peer reported by the signalling server.
#[derive(Debug, Clone, Copy, PartialEq, Eq, Structural)]
pub enum PeerKind {
    Local,
    Remote,
    Spectator,
}

/// What the web target does in a frame while it gathers players.
pub enum WaitOutcome {
    /// The socket was already handed to a running session.
    AlreadyStarted,
    /// Fewer than `NUM_PLAYERS` peers have joined.
    Waiting,
    /// Everyone is here: start the session with these local handles, adding peer `i` as player
    /// `i`.
    Start(LocalHandles),
}

/// Decides whether the web session can start: not when the socket is gone (a session already
/// runs) or while fewer than `NUM_PLAYERS` peers have joined; otherwise the local peers' numbers
/// are the local handles.
pub fn wait_for_players(socket_present: bool, players: &Vec<PeerKind>) -> (r: WaitOutcome)
    ensures
        !socket_present ==> r is AlreadyStarted,
        socket_present && players.len() < NUM_PLAYERS ==> r is Waiting,
        socket_present && players.len() >= NUM_PLAYERS ==> (r matches WaitOutcome::Start(h)
            && h.handles@ == local_handles_of(
            Seq::new(players.len() as nat, |i: int| players@[i] == PeerKind::Local),
        )),
{
    if !socket_present {
        return WaitOutcome::AlreadyStarted;
    }
    if players.len() < NUM_PLAYERS {
        return WaitOutcome::Waiting;
    }
    let mut local: Vec<bool> = Vec::new();
    let mut i: usize = 0;
    while i < players.len()
        invariant
            i <= players.len(),
            local.len() == i,
            forall|k: int| 0 <= k < i ==> #[trigger] local@[k] == (players@[k] == PeerKind::Local),
        decreases players.len() - i,
    {
        local.push(players[i] == PeerKind::Local);
        i += 1;
    }
    assert(local@ =~= Seq::new(players.len() as nat, |i: int| players@[i] == PeerKind::Local));
    WaitOutcome::Start(collect_local_handles(&local))
}

} // verus!
