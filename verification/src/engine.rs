//! The input engine: one backend connection, the engine's held-key set, and
//! the sequencing of press/release/click/scroll/text requests.
//!
//! Every operation's contract is stated over two ghost views of the engine:
//! [`EnigoJs::held_view`], the set of platform keys the engine has pressed
//! and not yet released, and [`EnigoJs::issued`], the sequence of requests
//! the engine has handed to the backend, oldest first. Whether a request
//! succeeds is decided by the OS at run time; the contracts state what was
//! issued and how the held-key set changed for every outcome, and multi-key
//! operations stop at the first failure with no rollback.

use vstd::prelude::*;
use vstd::string::StrSliceExecFns;

use crate::backend;
use crate::backend::{BackendError, ConstructionError};
use crate::keys::{resolve, resolve_spec, KeyboardKey, PlatformKey};

verus! {

/// A pointer button. The variant order is a stable wire contract.
#[derive(Clone, Copy, Debug, PartialEq, Eq, Structural)]
pub enum MouseButton {
    Left,
    Middle,
    Right,
}

/// A vertical scroll direction, paired with a signed magnitude in
/// [`EnigoJs::set_mouse_scroll`]. The variant order is a stable wire
/// contract.
#[derive(Clone, Copy, Debug, PartialEq, Eq, Structural)]
pub enum ScrollDirection {
    Down,
    Up,
}

/// An absolute pointer position in screen coordinates. No bounds are
/// enforced: out-of-range values are passed through and the OS decides.
#[derive(Clone, Copy, Debug, PartialEq, Eq, Structural)]
pub struct Point {
    pub x: i32,
    pub y: i32,
}

impl Point {
    /// Builds the point with the given coordinates.
    pub fn new(x: i32, y: i32) -> (r: Point)
        ensures
            r.x == x,
            r.y == y,
    {
        Point { x, y }
    }
}

/// A portable key paired with an advisory flag from the caller.
///
/// In [`EnigoJs::press_then_release_key`] the flag is metadata only: the
/// engine always presses every listed key and then releases every listed
/// key, whatever the flag says.
#[derive(Clone, Copy, Debug, PartialEq, Eq, Structural)]
pub struct ToggleKey {
    pub value: KeyboardKey,
    pub down: bool,
}

/// One request the engine issued to the platform backend. Ghost bookkeeping:
/// the contracts speak of sequences of these to pin down which backend calls
/// an operation makes and in which order.
pub enum BackendOp {
    KeyPress(PlatformKey),
    KeyRelease(PlatformKey),
    ButtonPress(MouseButton),
    ButtonRelease(MouseButton),
    Scroll(i32),
    Text(Seq<char>),
    MoveTo(i32, i32),
}

/// The held-key set after a press of `code`: added at the end if absent,
/// unchanged if already held, so membership order stays stable.
pub open spec fn insert_code(s: Seq<PlatformKey>, code: PlatformKey) -> Seq<PlatformKey> {
    if s.contains(code) {
        s
    } else {
        s.push(code)
    }
}

/// The held-key set after a release of `code`: every occurrence removed,
/// the order of the rest kept.
pub open spec fn remove_code(s: Seq<PlatformKey>, code: PlatformKey) -> Seq<PlatformKey>
    decreases s.len(),
{
    if s.len() == 0 {
        Seq::empty()
    } else if s[0] == code {
        remove_code(s.skip(1), code)
    } else {
        seq![s[0]] + remove_code(s.skip(1), code)
    }
}

/// The held-key set after the first `n` presses of `keys`, issued in list
/// order.
pub open spec fn press_prefix(s: Seq<PlatformKey>, keys: Seq<KeyboardKey>, n: int) -> Seq<
    PlatformKey,
>
    decreases n,
{
    if n <= 0 {
        s
    } else {
        insert_code(press_prefix(s, keys, n - 1), resolve_spec(keys[n - 1]))
    }
}

/// The held-key set after the first `n` releases of `keys`, issued in list
/// order.
pub open spec fn release_prefix(s: Seq<PlatformKey>, keys: Seq<KeyboardKey>, n: int) -> Seq<
    PlatformKey,
>
    decreases n,
{
    if n <= 0 {
        s
    } else {
        remove_code(release_prefix(s, keys, n - 1), resolve_spec(keys[n - 1]))
    }
}

/// The backend requests for the first `n` presses of `keys`, in list order.
pub open spec fn press_ops(keys: Seq<KeyboardKey>, n: int) -> Seq<BackendOp>
    decreases n,
{
    if n <= 0 {
        Seq::empty()
    } else {
        press_ops(keys, n - 1).push(BackendOp::KeyPress(resolve_spec(keys[n - 1])))
    }
}

/// The backend requests for the first `n` releases of `keys`, in list order.
pub open spec fn release_ops(keys: Seq<KeyboardKey>, n: int) -> Seq<BackendOp>
    decreases n,
{
    if n <= 0 {
        Seq::empty()
    } else {
        release_ops(keys, n - 1).push(BackendOp::KeyRelease(resolve_spec(keys[n - 1])))
    }
}

/// The portable keys named by a toggle-descriptor list, in list order.
pub open spec fn toggle_values(list: Seq<ToggleKey>) -> Seq<KeyboardKey> {
    list.map_values(|t: ToggleKey| t.value)
}

/// The signed scroll length: the magnitude `clicks` with the sign selected
/// by `direction` (down positive, up negative).
pub open spec fn scroll_length(direction: ScrollDirection, clicks: i32) -> i32 {
    match direction {
        ScrollDirection::Down => clicks,
        ScrollDirection::Up => (-(clicks as int)) as i32,
    }
}

/// Computes the signed scroll length: the magnitude `clicks` with the sign
/// selected by `direction` (down positive, up negative). Zero and negative
/// magnitudes pass through with only the directional sign applied.
pub fn signed_scroll_length(direction: ScrollDirection, clicks: i32) -> (r: i32)
    requires
        clicks > i32::MIN,
    ensures
        r == scroll_length(direction, clicks),
{
    match direction {
        ScrollDirection::Down => clicks,
        ScrollDirection::Up => -clicks,
    }
}

/// The input engine. It owns the backend connection for its whole lifetime,
/// keeps the held-key set as its only state, and serializes nothing: callers
/// sharing one engine across threads must serialize access themselves.
pub struct EnigoJs {
    dev: enigo::Enigo,
    held: Vec<PlatformKey>,
    log: Ghost<Seq<BackendOp>>,
}

impl EnigoJs {
    /// The engine's held-key set: the platform keys the engine has pressed
    /// without a matching release, in first-press order.
    pub closed spec fn held_view(&self) -> Seq<PlatformKey> {
        self.held@
    }

    /// Every request this engine has issued to the backend, oldest first.
    pub closed spec fn issued(&self) -> Seq<BackendOp> {
        self.log@
    }

    /// Well-formed: the held-key set holds each platform key at most once.
    pub closed spec fn wf(&self) -> bool {
        self.held@.no_duplicates()
    }

    /// Acquires the backend connection and starts with nothing held and
    /// nothing issued. Fails only if the backend cannot acquire OS
    /// input-injection privileges; there is no retry.
    pub fn new() -> (r: Result<EnigoJs, ConstructionError>)
        ensures
            r matches Ok(engine) ==> engine.wf() && engine.held_view() == Seq::<
                PlatformKey,
            >::empty() && engine.issued() == Seq::<BackendOp>::empty(),
    {
        match backend::connect() {
            Ok(dev) => Ok(
                EnigoJs { dev, held: Vec::new(), log: Ghost(Seq::empty()) },
            ),
            Err(e) => Err(e),
        }
    }

    /// Snapshot of the engine's held-key set, in first-press order. No side
    /// effects: nothing is issued to the backend.
    pub fn held_keys(&self) -> (r: Vec<PlatformKey>)
        ensures
            r@ == self.held_view(),
    {
        let mut out: Vec<PlatformKey> = Vec::new();
        let mut i: usize = 0;
        while i < self.held.len()
            invariant
                0 <= i <= self.held@.len(),
                out@ == self.held@.take(i as int),
            decreases self.held@.len() - i,
        {
            out.push(self.held[i]);
            proof {
                assert(self.held@.take(i + 1 as int) =~= self.held@.take(i as int).push(
                    self.held@[i as int],
                ));
            }
            i = i + 1;
        }
        proof {
            assert(self.held@.take(self.held@.len() as int) =~= self.held@);
        }
        out
    }

    /// The backend's own live record of held keys, as raw platform key
    /// codes. Platform-native codes go out where portable keys come in; a
    /// caller that needs the portable identity keeps its own reverse
    /// mapping. The contents are the backend's run-time state, so nothing is
    /// promised of them; the engine's own state does not change.
    pub fn held(&mut self) -> (r: Vec<u16>)
        ensures
            final(self).held_view() == old(self).held_view(),
            final(self).issued() == old(self).issued(),
            final(self).wf() == old(self).wf(),
    {
        backend::query_held_codes(&mut self.dev)
    }

    /// Queries the pointer position from the OS. A query only: the engine's
    /// state does not change and nothing is issued to the backend; it fails
    /// if the OS denies the query.
    pub fn get_mouse_position(&mut self) -> (r: Result<Point, BackendError>)
        ensures
            *final(self) == *old(self),
    {
        match backend::query_location(&self.dev) {
            Ok((x, y)) => Ok(Point::new(x, y)),
            Err(e) => Err(e),
        }
    }

    /// Moves the pointer to the absolute position. Idempotent at the
    /// engine: exactly one move request is issued, the held-key set does not
    /// change, and coordinates are passed through without range validation.
    pub fn set_mouse_position(&mut self, x: i32, y: i32) -> (r: Result<(), BackendError>)
        requires
            old(self).wf(),
        ensures
            final(self).wf(),
            final(self).held_view() == old(self).held_view(),
            final(self).issued() == old(self).issued().push(BackendOp::MoveTo(x, y)),
    {
        self.log = Ghost(self.log@.push(BackendOp::MoveTo(x, y)));
        backend::move_event(&mut self.dev, x, y)
    }

    /// Presses (`down`) or releases (`!down`) one pointer button. The two
    /// calls are not paired automatically: the caller balances press and
    /// release, and an unmatched release is passed through to the backend.
    /// Button state is not tracked in the held-key set.
    pub fn set_button_toggle(&mut self, button: MouseButton, down: bool) -> (r: Result<
        (),
        BackendError,
    >)
        requires
            old(self).wf(),
        ensures
            final(self).wf(),
            final(self).held_view() == old(self).held_view(),
            down ==> final(self).issued() == old(self).issued().push(
                BackendOp::ButtonPress(button),
            ),
            !down ==> final(self).issued() == old(self).issued().push(
                BackendOp::ButtonRelease(button),
            ),
    {
        if down {
            self.log = Ghost(self.log@.push(BackendOp::ButtonPress(button)));
        } else {
            self.log = Ghost(self.log@.push(BackendOp::ButtonRelease(button)));
        }
        backend::button_event(&mut self.dev, button, down)
    }

    /// Clicks one pointer button: exactly one press request immediately
    /// followed by one release request, stopping after the press if it
    /// fails. The held-key set never changes, so no observer sees a
    /// half-click through [`EnigoJs::held_keys`].
    pub fn set_button_click(&mut self, button: MouseButton) -> (r: Result<(), BackendError>)
        requires
            old(self).wf(),
        ensures
            final(self).wf(),
            final(self).held_view() == old(self).held_view(),
            r is Ok ==> final(self).issued() == old(self).issued() + seq![
                BackendOp::ButtonPress(button),
                BackendOp::ButtonRelease(button),
            ],
            r is Err ==> final(self).issued() == old(self).issued().push(
                BackendOp::ButtonPress(button),
            ) || final(self).issued() == old(self).issued() + seq![
                BackendOp::ButtonPress(button),
                BackendOp::ButtonRelease(button),
            ],
    {
        self.log = Ghost(self.log@.push(BackendOp::ButtonPress(button)));
        match backend::button_event(&mut self.dev, button, true) {
            Ok(_) => {},
            Err(e) => {
                return Err(e);
            },
        }
        self.log = Ghost(self.log@.push(BackendOp::ButtonRelease(button)));
        proof {
            assert(self.log@ =~= old(self).log@ + seq![
                BackendOp::ButtonPress(button),
                BackendOp::ButtonRelease(button),
            ]);
        }
        backend::button_event(&mut self.dev, button, false)
    }

    /// Scrolls along the vertical axis: one signed request whose magnitude
    /// is `clicks` and whose sign follows `direction`. Zero or negative
    /// magnitudes are passed through unchanged, no clamping.
    pub fn set_mouse_scroll(&mut self, direction: ScrollDirection, clicks: i32) -> (r: Result<
        (),
        BackendError,
    >)
        requires
            old(self).wf(),
            clicks > i32::MIN,
        ensures
            final(self).wf(),
            final(self).held_view() == old(self).held_view(),
            final(self).issued() == old(self).issued().push(
                BackendOp::Scroll(scroll_length(direction, clicks)),
            ),
    {
        let length: i32 = signed_scroll_length(direction, clicks);
        self.log = Ghost(self.log@.push(BackendOp::Scroll(length)));
        backend::scroll_event(&mut self.dev, length)
    }

    /// Injects a whole string as native text input, preserving its full
    /// Unicode content. The empty string succeeds without touching the
    /// backend. A non-empty string is handed over as one request; if the
    /// backend rejects it part-way the partial output is indeterminate, an
    /// inherent boundary condition of OS text injection.
    pub fn type_text(&mut self, content: String) -> (r: Result<(), BackendError>)
        requires
            old(self).wf(),
        ensures
            final(self).wf(),
            final(self).held_view() == old(self).held_view(),
            content@.len() == 0 ==> r is Ok && final(self).issued() == old(self).issued(),
            content@.len() > 0 ==> final(self).issued() == old(self).issued().push(
                BackendOp::Text(content@),
            ),
    {
        if content.as_str().unicode_len() == 0 {
            return Ok(());
        }
        self.log = Ghost(self.log@.push(BackendOp::Text(content@)));
        backend::text_event(&mut self.dev, content.as_str())
    }

    /// Presses every listed key in list order, one request per key,
    /// recording each successful press in the held-key set. Stops at the
    /// first failure and returns its error, with no rollback: the keys
    /// already pressed stay held, and the failing request is the last one
    /// issued.
    pub fn press_key(&mut self, keys: Vec<KeyboardKey>) -> (r: Result<(), BackendError>)
        requires
            old(self).wf(),
        ensures
            final(self).wf(),
            r is Ok ==> final(self).held_view() == press_prefix(
                old(self).held_view(),
                keys@,
                keys@.len() as int,
            ) && final(self).issued() == old(self).issued() + press_ops(
                keys@,
                keys@.len() as int,
            ),
            r is Err ==> exists|n: int|
                #![trigger press_prefix(old(self).held_view(), keys@, n)]
                0 <= n && n < keys@.len() && final(self).held_view() == press_prefix(
                    old(self).held_view(),
                    keys@,
                    n,
                ) && final(self).issued() == old(self).issued() + press_ops(keys@, n + 1),
    {
        let ghost s0 = self.held@;
        let ghost l0 = self.log@;
        let mut i: usize = 0;
        while i < keys.len()
            invariant
                0 <= i <= keys@.len(),
                s0 == old(self).held@,
                l0 == old(self).log@,
                self.held@.no_duplicates(),
                self.held@ == press_prefix(s0, keys@, i as int),
                self.log@ == l0 + press_ops(keys@, i as int),
            decreases keys@.len() - i,
        {
            let code = resolve(keys[i]);
            self.log = Ghost(self.log@.push(BackendOp::KeyPress(resolve_spec(keys@[i as int]))));
            proof {
                assert(l0 + press_ops(keys@, i as int + 1) =~= (l0 + press_ops(
                    keys@,
                    i as int,
                )).push(BackendOp::KeyPress(resolve_spec(keys@[i as int]))));
            }
            match backend::key_event(&mut self.dev, &code, true) {
                Ok(_) => {},
                Err(e) => {
                    proof {
                        assert(old(self).held_view() == s0);
                        assert(old(self).issued() == l0);
                        assert(self.held@ == press_prefix(old(self).held_view(), keys@, i as int));
                        assert(self.log@ == old(self).issued() + press_ops(
                            keys@,
                            i as int + 1,
                        ));
                        assert(exists|n: int|
                            #![trigger press_prefix(old(self).held_view(), keys@, n)]
                            0 <= n && n < keys@.len() && self.held@ == press_prefix(
                                old(self).held_view(),
                                keys@,
                                n,
                            ) && self.log@ == old(self).issued() + press_ops(keys@, n + 1));
                    }
                    return Err(e);
                },
            }
            press_held(&mut self.held, code);
            i = i + 1;
        }
        Ok(())
    }

    /// Releases every listed key in list order, one request per key,
    /// removing each successfully released key from the held-key set.
    /// Symmetric to [`EnigoJs::press_key`]: stops at the first failure with
    /// no rollback, and an unmatched release is passed through to the
    /// backend unchecked.
    pub fn release_key(&mut self, keys: Vec<KeyboardKey>) -> (r: Result<(), BackendError>)
        requires
            old(self).wf(),
        ensures
            final(self).wf(),
            r is Ok ==> final(self).held_view() == release_prefix(
                old(self).held_view(),
                keys@,
                keys@.len() as int,
            ) && final(self).issued() == old(self).issued() + release_ops(
                keys@,
                keys@.len() as int,
            ),
            r is Err ==> exists|n: int|
                #![trigger release_prefix(old(self).held_view(), keys@, n)]
                0 <= n && n < keys@.len() && final(self).held_view() == release_prefix(
                    old(self).held_view(),
                    keys@,
                    n,
                ) && final(self).issued() == old(self).issued() + release_ops(keys@, n + 1),
    {
        let ghost s0 = self.held@;
        let ghost l0 = self.log@;
        let mut i: usize = 0;
        while i < keys.len()
            invariant
                0 <= i <= keys@.len(),
                s0 == old(self).held@,
                l0 == old(self).log@,
                self.held@.no_duplicates(),
                self.held@ == release_prefix(s0, keys@, i as int),
                self.log@ == l0 + release_ops(keys@, i as int),
            decreases keys@.len() - i,
        {
            let code = resolve(keys[i]);
            self.log = Ghost(self.log@.push(BackendOp::KeyRelease(resolve_spec(keys@[i as int]))));
            proof {
                assert(l0 + release_ops(keys@, i as int + 1) =~= (l0 + release_ops(
                    keys@,
                    i as int,
                )).push(BackendOp::KeyRelease(resolve_spec(keys@[i as int]))));
            }
            match backend::key_event(&mut self.dev, &code, false) {
                Ok(_) => {},
                Err(e) => {
                    proof {
                        assert(old(self).held_view() == s0);
                        assert(old(self).issued() == l0);
                        assert(self.held@ == release_prefix(old(self).held_view(), keys@, i as int));
                        assert(self.log@ == old(self).issued() + release_ops(
                            keys@,
                            i as int + 1,
                        ));
                        assert(exists|n: int|
                            #![trigger release_prefix(old(self).held_view(), keys@, n)]
                            0 <= n && n < keys@.len() && self.held@ == release_prefix(
                                old(self).held_view(),
                                keys@,
                                n,
                            ) && self.log@ == old(self).issued() + release_ops(keys@, n + 1));
                    }
                    return Err(e);
                },
            }
            release_held(&mut self.held, code);
            i = i + 1;
        }
        Ok(())
    }

    /// Presses every listed key in list order, then releases every listed
    /// key in list order: two full passes, never interleaved per key, so a
    /// whole chord is down before any of it comes back up. The `down` flag
    /// of each descriptor is advisory metadata and does not change this
    /// fixed pattern. Stops at the first failure with no rollback, in
    /// whichever pass it happens.
    pub fn press_then_release_key(&mut self, keys: Vec<ToggleKey>) -> (r: Result<
        (),
        BackendError,
    >)
        requires
            old(self).wf(),
        ensures
            final(self).wf(),
            r is Ok ==> final(self).held_view() == release_prefix(
                press_prefix(
                    old(self).held_view(),
                    toggle_values(keys@),
                    keys@.len() as int,
                ),
                toggle_values(keys@),
                keys@.len() as int,
            ) && final(self).issued() == old(self).issued() + press_ops(
                toggle_values(keys@),
                keys@.len() as int,
            ) + release_ops(toggle_values(keys@), keys@.len() as int),
            r is Err ==> (exists|n: int|
                #![trigger press_prefix(old(self).held_view(), toggle_values(keys@), n)]
                0 <= n && n < keys@.len() && final(self).held_view() == press_prefix(
                    old(self).held_view(),
                    toggle_values(keys@),
                    n,
                ) && final(self).issued() == old(self).issued() + press_ops(
                    toggle_values(keys@),
                    n + 1,
                )) || (exists|n: int|
                #![trigger release_prefix(press_prefix(old(self).held_view(), toggle_values(keys@), keys@.len() as int), toggle_values(keys@), n)]
                0 <= n && n < keys@.len() && final(self).held_view() == release_prefix(
                    press_prefix(
                        old(self).held_view(),
                        toggle_values(keys@),
                        keys@.len() as int,
                    ),
                    toggle_values(keys@),
                    n,
                ) && final(self).issued() == old(self).issued() + press_ops(
                    toggle_values(keys@),
                    keys@.len() as int,
                ) + release_ops(toggle_values(keys@), n + 1)),
    {
        let ghost s0 = self.held@;
        let ghost l0 = self.log@;
        let ghost ks = toggle_values(keys@);
        proof {
            assert(ks.len() == keys@.len());
        }
        let mut i: usize = 0;
        while i < keys.len()
            invariant
                0 <= i <= keys@.len(),
                s0 == old(self).held@,
                l0 == old(self).log@,
                ks == toggle_values(keys@),
                ks.len() == keys@.len(),
                self.held@.no_duplicates(),
                self.held@ == press_prefix(s0, ks, i as int),
                self.log@ == l0 + press_ops(ks, i as int),
            decreases keys@.len() - i,
        {
            let code = resolve(keys[i].value);
            proof {
                assert(ks[i as int] == keys@[i as int].value);
            }
            self.log = Ghost(self.log@.push(BackendOp::KeyPress(resolve_spec(ks[i as int]))));
            proof {
                assert(l0 + press_ops(ks, i as int + 1) =~= (l0 + press_ops(ks, i as int)).push(
                    BackendOp::KeyPress(resolve_spec(ks[i as int])),
                ));
            }
            match backend::key_event(&mut self.dev, &code, true) {
                Ok(_) => {},
                Err(e) => {
                    proof {
                        assert(old(self).held_view() == s0);
                        assert(old(self).issued() == l0);
                        assert(self.held@ == press_prefix(
                            old(self).held_view(),
                            toggle_values(keys@),
                            i as int,
                        ));
                        assert(self.log@ == old(self).issued() + press_ops(
                            toggle_values(keys@),
                            i as int + 1,
                        ));
                        assert(exists|n: int|
                            #![trigger press_prefix(old(self).held_view(), toggle_values(keys@), n)]
                            0 <= n && n < keys@.len() && self.held@ == press_prefix(
                                old(self).held_view(),
                                toggle_values(keys@),
                                n,
                            ) && self.log@ == old(self).issued() + press_ops(
                                toggle_values(keys@),
                                n + 1,
                            ));
                    }
                    return Err(e);
                },
            }
            press_held(&mut self.held, code);
            i = i + 1;
        }
        let ghost m0 = self.held@;
        let ghost l1 = self.log@;
        let mut j: usize = 0;
        while j < keys.len()
            invariant
                0 <= j <= keys@.len(),
                s0 == old(self).held@,
                l0 == old(self).log@,
                ks == toggle_values(keys@),
                ks.len() == keys@.len(),
                m0 == press_prefix(s0, ks, keys@.len() as int),
                l1 == l0 + press_ops(ks, keys@.len() as int),
                self.held@.no_duplicates(),
                self.held@ == release_prefix(m0, ks, j as int),
                self.log@ == l1 + release_ops(ks, j as int),
            decreases keys@.len() - j,
        {
            let code = resolve(keys[j].value);
            proof {
                assert(ks[j as int] == keys@[j as int].value);
            }
            self.log = Ghost(self.log@.push(BackendOp::KeyRelease(resolve_spec(ks[j as int]))));
            proof {
                assert(l1 + release_ops(ks, j as int + 1) =~= (l1 + release_ops(ks, j as int)).push(
                    BackendOp::KeyRelease(resolve_spec(ks[j as int])),
                ));
            }
            match backend::key_event(&mut self.dev, &code, false) {
                Ok(_) => {},
                Err(e) => {
                    proof {
                        assert(old(self).held_view() == s0);
                        assert(old(self).issued() == l0);
                        assert(m0 == press_prefix(
                            old(self).held_view(),
                            toggle_values(keys@),
                            keys@.len() as int,
                        ));
                        assert(l1 == old(self).issued() + press_ops(
                            toggle_values(keys@),
                            keys@.len() as int,
                        ));
                        assert(self.held@ == release_prefix(
                            press_prefix(
                                old(self).held_view(),
                                toggle_values(keys@),
                                keys@.len() as int,
                            ),
                            toggle_values(keys@),
                            j as int,
                        ));
                        assert(self.log@ == old(self).issued() + press_ops(
                            toggle_values(keys@),
                            keys@.len() as int,
                        ) + release_ops(toggle_values(keys@), j as int + 1));
                        assert(exists|n: int|
                            #![trigger release_prefix(press_prefix(old(self).held_view(), toggle_values(keys@), keys@.len() as int), toggle_values(keys@), n)]
                            0 <= n && n < keys@.len() && self.held@ == release_prefix(
                                press_prefix(
                                    old(self).held_view(),
                                    toggle_values(keys@),
                                    keys@.len() as int,
                                ),
                                toggle_values(keys@),
                                n,
                            ) && self.log@ == old(self).issued() + press_ops(
                                toggle_values(keys@),
                                keys@.len() as int,
                            ) + release_ops(toggle_values(keys@), n + 1));
                    }
                    return Err(e);
                },
            }
            release_held(&mut self.held, code);
            j = j + 1;
        }
        Ok(())
    }
}

/// A released key is gone: the held-key set after a release never contains
/// the released code.
pub proof fn lemma_remove_code_not_contains(s: Seq<PlatformKey>, code: PlatformKey)
    ensures
        !remove_code(s, code).contains(code),
    decreases s.len(),
{
    if s.len() == 0 {
    } else if s[0] == code {
        lemma_remove_code_not_contains(s.skip(1), code);
    } else {
        lemma_remove_code_not_contains(s.skip(1), code);
        if remove_code(s, code).contains(code) {
            let k = choose|k: int|
                0 <= k < remove_code(s, code).len() && remove_code(s, code)[k] == code;
            if k == 0 {
                assert(remove_code(s, code)[0] == s[0]);
            } else {
                assert(remove_code(s, code)[k] == remove_code(s.skip(1), code)[k - 1]);
                assert(remove_code(s.skip(1), code).contains(code));
            }
        }
    }
}

/// A release removes only the released code: membership of every other key
/// is untouched.
pub proof fn lemma_remove_code_keeps_others(s: Seq<PlatformKey>, code: PlatformKey, x: PlatformKey)
    requires
        x != code,
    ensures
        remove_code(s, code).contains(x) <==> s.contains(x),
    decreases s.len(),
{
    if s.len() == 0 {
    } else {
        lemma_remove_code_keeps_others(s.skip(1), code, x);
        let rest = remove_code(s.skip(1), code);
        if s[0] == code {
            if s.contains(x) {
                let k = choose|k: int| 0 <= k < s.len() && s[k] == x;
                assert(k != 0);
                assert(s.skip(1)[k - 1] == x);
                assert(s.skip(1).contains(x));
            }
            if s.skip(1).contains(x) {
                let k = choose|k: int| 0 <= k < s.skip(1).len() && s.skip(1)[k] == x;
                assert(s[k + 1] == x);
                assert(s.contains(x));
            }
        } else {
            if remove_code(s, code).contains(x) {
                let k = choose|k: int|
                    0 <= k < remove_code(s, code).len() && remove_code(s, code)[k] == x;
                if k == 0 {
                    assert(s[0] == x);
                    assert(s.contains(x));
                } else {
                    assert(rest[k - 1] == x);
                    assert(rest.contains(x));
                    let j = choose|j: int| 0 <= j < s.skip(1).len() && s.skip(1)[j] == x;
                    assert(s[j + 1] == x);
                    assert(s.contains(x));
                }
            }
            if s.contains(x) {
                let k = choose|k: int| 0 <= k < s.len() && s[k] == x;
                if k == 0 {
                    assert(remove_code(s, code)[0] == x);
                    assert(remove_code(s, code).contains(x));
                } else {
                    assert(s.skip(1)[k - 1] == x);
                    assert(s.skip(1).contains(x));
                    let j = choose|j: int| 0 <= j < rest.len() && rest[j] == x;
                    assert(remove_code(s, code)[j + 1] == x);
                    assert(remove_code(s, code).contains(x));
                }
            }
        }
    }
}

/// A release keeps the held-key set free of duplicates.
pub proof fn lemma_remove_code_no_duplicates(s: Seq<PlatformKey>, code: PlatformKey)
    requires
        s.no_duplicates(),
    ensures
        remove_code(s, code).no_duplicates(),
    decreases s.len(),
{
    if s.len() == 0 {
    } else {
        assert forall|i: int, j: int|
            (0 <= i < s.skip(1).len() && 0 <= j < s.skip(1).len() && i != j) implies s.skip(1)[i]
            != s.skip(1)[j] by {
            assert(s.skip(1)[i] == s[i + 1]);
            assert(s.skip(1)[j] == s[j + 1]);
        }
        lemma_remove_code_no_duplicates(s.skip(1), code);
        if s[0] != code {
            let rest = remove_code(s.skip(1), code);
            if rest.contains(s[0]) {
                lemma_remove_code_keeps_others(s.skip(1), code, s[0]);
                let k = choose|k: int| 0 <= k < s.skip(1).len() && s.skip(1)[k] == s[0];
                assert(s[k + 1] == s[0]);
            }
            assert forall|j: int| 0 <= j < rest.len() implies seq![s[0]][0] != rest[j] by {
                assert(rest.contains(rest[j]));
            }
            vstd::seq_lib::lemma_no_dup_in_concat(seq![s[0]], rest);
        }
    }
}

/// A press adds the pressed code to the held-key set.
pub proof fn lemma_insert_code_contains(s: Seq<PlatformKey>, code: PlatformKey)
    ensures
        insert_code(s, code).contains(code),
{
    if !s.contains(code) {
        assert(s.push(code)[s.len() as int] == code);
    }
}

/// A press keeps every key that was already held.
pub proof fn lemma_insert_code_keeps(s: Seq<PlatformKey>, code: PlatformKey, x: PlatformKey)
    requires
        s.contains(x),
    ensures
        insert_code(s, code).contains(x),
{
    if !s.contains(code) {
        let k = choose|k: int| 0 <= k < s.len() && s[k] == x;
        assert(s.push(code)[k] == x);
    }
}

/// A key that is not held stays out of the held-key set across a release,
/// whichever code that release removes.
pub proof fn lemma_remove_code_preserves_absence(
    s: Seq<PlatformKey>,
    code: PlatformKey,
    x: PlatformKey,
)
    requires
        !s.contains(x),
    ensures
        !remove_code(s, code).contains(x),
{
    if x == code {
        lemma_remove_code_not_contains(s, code);
    } else {
        lemma_remove_code_keeps_others(s, code, x);
    }
}

/// A batch release is complete: once the first `n` releases of `keys` have
/// gone through, the platform code of each of those keys is out of the
/// held-key set and stays out for the rest of the batch.
pub proof fn lemma_release_removes(s: Seq<PlatformKey>, keys: Seq<KeyboardKey>, n: int, j: int)
    requires
        0 <= j < n <= keys.len(),
    ensures
        !release_prefix(s, keys, n).contains(resolve_spec(keys[j])),
    decreases n,
{
    if j == n - 1 {
        lemma_remove_code_not_contains(release_prefix(s, keys, n - 1), resolve_spec(keys[n - 1]));
    } else {
        lemma_release_removes(s, keys, n - 1, j);
        lemma_remove_code_preserves_absence(
            release_prefix(s, keys, n - 1),
            resolve_spec(keys[n - 1]),
            resolve_spec(keys[j]),
        );
    }
}

/// No rollback: once the first `n` presses of a batch have succeeded, the
/// platform code of each of those keys is in the held-key set, and stays
/// there however the rest of the batch fares.
pub proof fn lemma_no_rollback(s: Seq<PlatformKey>, keys: Seq<KeyboardKey>, n: int, j: int)
    requires
        0 <= j < n <= keys.len(),
    ensures
        press_prefix(s, keys, n).contains(resolve_spec(keys[j])),
    decreases n,
{
    if j == n - 1 {
        lemma_insert_code_contains(press_prefix(s, keys, n - 1), resolve_spec(keys[n - 1]));
    } else {
        lemma_no_rollback(s, keys, n - 1, j);
        lemma_insert_code_keeps(
            press_prefix(s, keys, n - 1),
            resolve_spec(keys[n - 1]),
            resolve_spec(keys[j]),
        );
    }
}

/// Pressing a key puts its platform code in the held-key set; a subsequent
/// release of the same key takes it out again.
pub proof fn lemma_press_then_release_membership(s: Seq<PlatformKey>, key: KeyboardKey)
    ensures
        press_prefix(s, seq![key], 1).contains(resolve_spec(key)),
        !release_prefix(press_prefix(s, seq![key], 1), seq![key], 1).contains(resolve_spec(key)),
{
    reveal_with_fuel(press_prefix, 2);
    reveal_with_fuel(release_prefix, 2);
    assert(seq![key][0] == key);
    assert(press_prefix(s, seq![key], 1) == insert_code(s, resolve_spec(key)));
    assert(release_prefix(press_prefix(s, seq![key], 1), seq![key], 1) == remove_code(
        press_prefix(s, seq![key], 1),
        resolve_spec(key),
    ));
    lemma_insert_code_contains(s, resolve_spec(key));
    lemma_remove_code_not_contains(press_prefix(s, seq![key], 1), resolve_spec(key));
}

/// The number of requests in a press pass equals the number of keys pressed.
pub proof fn lemma_press_ops_len(keys: Seq<KeyboardKey>, n: int)
    requires
        0 <= n,
    ensures
        press_ops(keys, n).len() == n,
    decreases n,
{
    if n > 0 {
        lemma_press_ops_len(keys, n - 1);
    }
}

/// The number of requests in a release pass equals the number of keys
/// released.
pub proof fn lemma_release_ops_len(keys: Seq<KeyboardKey>, n: int)
    requires
        0 <= n,
    ensures
        release_ops(keys, n).len() == n,
    decreases n,
{
    if n > 0 {
        lemma_release_ops_len(keys, n - 1);
    }
}

/// The `i`-th request of a press pass presses the `i`-th key.
pub proof fn lemma_press_ops_index(keys: Seq<KeyboardKey>, n: int, i: int)
    requires
        0 <= i < n,
    ensures
        press_ops(keys, n)[i] == BackendOp::KeyPress(resolve_spec(keys[i])),
    decreases n,
{
    lemma_press_ops_len(keys, n - 1);
    if i < n - 1 {
        lemma_press_ops_index(keys, n - 1, i);
    }
}

/// The `i`-th request of a release pass releases the `i`-th key.
pub proof fn lemma_release_ops_index(keys: Seq<KeyboardKey>, n: int, i: int)
    requires
        0 <= i < n,
    ensures
        release_ops(keys, n)[i] == BackendOp::KeyRelease(resolve_spec(keys[i])),
    decreases n,
{
    lemma_release_ops_len(keys, n - 1);
    if i < n - 1 {
        lemma_release_ops_index(keys, n - 1, i);
    }
}

/// Two full passes, never interleaved: in the request sequence of a
/// press-then-release batch over `keys`, the `i`-th request presses the
/// `i`-th key and the `(len + i)`-th request releases it, so every key of
/// the batch goes down before any comes back up.
pub proof fn lemma_two_pass_order(keys: Seq<KeyboardKey>, i: int)
    requires
        0 <= i < keys.len(),
    ensures
        (press_ops(keys, keys.len() as int) + release_ops(keys, keys.len() as int)).len() == 2
            * keys.len(),
        (press_ops(keys, keys.len() as int) + release_ops(keys, keys.len() as int))[i]
            == BackendOp::KeyPress(resolve_spec(keys[i])),
        (press_ops(keys, keys.len() as int) + release_ops(keys, keys.len() as int))[keys.len() + i]
            == BackendOp::KeyRelease(resolve_spec(keys[i])),
{
    let n = keys.len() as int;
    lemma_press_ops_len(keys, n);
    lemma_release_ops_len(keys, n);
    lemma_press_ops_index(keys, n, i);
    lemma_release_ops_index(keys, n, i);
}

/// Opposite scroll directions with the same magnitude yield backend
/// requests of equal magnitude and opposite sign.
pub proof fn lemma_scroll_directions_opposite(clicks: i32)
    requires
        clicks > i32::MIN,
    ensures
        scroll_length(ScrollDirection::Down, clicks) as int == -(scroll_length(
            ScrollDirection::Up,
            clicks,
        ) as int),
{
}

/// Whether `code` is in the held-key set `held`.
fn held_contains(held: &Vec<PlatformKey>, code: PlatformKey) -> (r: bool)
    ensures
        r == held@.contains(code),
{
    let mut i: usize = 0;
    while i < held.len()
        invariant
            0 <= i <= held@.len(),
            forall|j: int| 0 <= j < i ==> held@[j] != code,
        decreases held@.len() - i,
    {
        if held[i] == code {
            return true;
        }
        i = i + 1;
    }
    false
}

/// Records a press of `code` in the held-key set.
fn press_held(held: &mut Vec<PlatformKey>, code: PlatformKey)
    requires
        old(held)@.no_duplicates(),
    ensures
        final(held)@ == insert_code(old(held)@, code),
        final(held)@.no_duplicates(),
{
    if !held_contains(held, code) {
        let ghost s = held@;
        held.push(code);
        proof {
            assert forall|i: int, j: int|
                (0 <= i < held@.len() && 0 <= j < held@.len() && i != j) implies held@[i]
                != held@[j] by {
                if i < s.len() && j < s.len() {
                    assert(held@[i] == s[i] && held@[j] == s[j]);
                } else if j == s.len() {
                    assert(held@[j] == code && held@[i] == s[i]);
                    assert(!s.contains(code));
                } else {
                    assert(held@[i] == code && held@[j] == s[j]);
                    assert(!s.contains(code));
                }
            }
        }
    }
}

/// Records a release of `code` in the held-key set.
fn release_held(held: &mut Vec<PlatformKey>, code: PlatformKey)
    requires
        old(held)@.no_duplicates(),
    ensures
        final(held)@ == remove_code(old(held)@, code),
        final(held)@.no_duplicates(),
{
    let ghost s = held@;
    let mut out: Vec<PlatformKey> = Vec::new();
    let mut i: usize = 0;
    proof {
        assert(s.skip(0) =~= s);
        assert(out@ + remove_code(s, code) =~= remove_code(s, code));
    }
    while i < held.len()
        invariant
            0 <= i <= s.len(),
            held@ == s,
            remove_code(s, code) == out@ + remove_code(s.skip(i as int), code),
        decreases s.len() - i,
    {
        let ghost out0 = out@;
        let c = held[i];
        proof {
            assert(s.skip(i as int)[0] == s[i as int]);
            assert(s.skip(i as int).skip(1) =~= s.skip(i as int + 1));
        }
        if c != code {
            out.push(c);
            proof {
                assert(out0 + (seq![c] + remove_code(s.skip(i as int + 1), code)) =~= out@
                    + remove_code(s.skip(i as int + 1), code));
            }
        }
        i = i + 1;
    }
    proof {
        assert(remove_code(s.skip(s.len() as int), code) =~= Seq::<PlatformKey>::empty());
        assert(out@ + Seq::<PlatformKey>::empty() =~= out@);
        lemma_remove_code_no_duplicates(s, code);
    }
    *held = out;
}

} // verus!
