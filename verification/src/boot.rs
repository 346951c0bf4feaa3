//! Boot options and the boot orchestrator.

use vstd::prelude::*;

verus! {

/// A device path, as its bytes.
#[derive(Debug)]
pub struct DevicePathBuf(pub Vec<u8>);

/// Drives the boot: connects devices, signals the BDS phase and ready to
/// boot, then tries the boot options in order.
#[derive(Debug, Clone, Copy)]
pub struct BootOrchestrator;

/// Boot options: a primary and a secondary device, a hotkey and what to do
/// when every device failed to boot.
pub struct BootOptions<F> {
    primary: Option<DevicePathBuf>,
    secondary: Option<DevicePathBuf>,
    hotkey: Option<u16>,
    failure_handler: Option<F>,
}

impl<F> BootOptions<F> {
    /// Whether a primary device is set.
    pub closed spec fn has_primary(&self) -> bool {
        self.primary is Some
    }

    /// Whether a secondary device is set.
    pub closed spec fn has_secondary(&self) -> bool {
        self.secondary is Some
    }

    /// The primary device.
    pub closed spec fn spec_primary(&self) -> Option<DevicePathBuf> {
        self.primary
    }

    /// The secondary device.
    pub closed spec fn spec_secondary(&self) -> Option<DevicePathBuf> {
        self.secondary
    }

    /// The hotkey.
    pub closed spec fn spec_hotkey(&self) -> Option<u16> {
        self.hotkey
    }

    /// Whether a failure handler is set.
    pub closed spec fn has_failure_handler(&self) -> bool {
        self.failure_handler is Some
    }

    /// The failure handler.
    pub closed spec fn spec_failure_handler(&self) -> Option<F> {
        self.failure_handler
    }

    /// Options that boot from `primary`.
    pub fn new(primary: DevicePathBuf) -> (r: Self)
        ensures
            r.has_primary(),
            !r.has_secondary(),
            r.spec_hotkey() is None,
            !r.has_failure_handler(),
    {
        Self { primary: Some(primary), secondary: None, hotkey: None, failure_handler: None }
    }

    /// The options with `secondary` tried after the primary device.
    pub fn with_secondary(self, secondary: DevicePathBuf) -> (r: Self)
        ensures
            r.has_primary() == self.has_primary(),
            r.has_secondary(),
            r.spec_hotkey() == self.spec_hotkey(),
            r.has_failure_handler() == self.has_failure_handler(),
    {
        let mut s = self;
        s.secondary = Some(secondary);
        s
    }

    /// The options with the hotkey `scancode`.
    pub fn with_hotkey(self, scancode: u16) -> (r: Self)
        ensures
            r.has_primary() == self.has_primary(),
            r.has_secondary() == self.has_secondary(),
            r.spec_hotkey() == Some(scancode),
            r.has_failure_handler() == self.has_failure_handler(),
    {
        let mut s = self;
        s.hotkey = Some(scancode);
        s
    }

    /// The options with `handler` run when every device failed to boot.
    pub fn with_failure_handler<G: Fn()>(self, handler: G) -> (r: BootOptions<G>)
        ensures
            r.has_primary() == self.has_primary(),
            r.has_secondary() == self.has_secondary(),
            r.spec_hotkey() == self.spec_hotkey(),
            r.has_failure_handler(),
            r.spec_failure_handler() == Some(handler),
    {
        BootOptions {
            primary: self.primary,
            secondary: self.secondary,
            hotkey: self.hotkey,
            failure_handler: Some(handler),
        }
    }

    /// The primary device.
    pub fn primary(&self) -> (r: Option<&DevicePathBuf>)
        ensures
            r is Some == self.has_primary(),
            r is Some ==> *r->0 == self.spec_primary()->0,
    {
        self.primary.as_ref()
    }

    /// The secondary device.
    pub fn secondary(&self) -> (r: Option<&DevicePathBuf>)
        ensures
            r is Some == self.has_secondary(),
            r is Some ==> *r->0 == self.spec_secondary()->0,
    {
        self.secondary.as_ref()
    }

    /// The hotkey.
    pub fn hotkey(&self) -> (r: Option<u16>)
        ensures
            r == self.spec_hotkey(),
    {
        self.hotkey
    }

    /// The devices to boot from, in order: the primary, then the
    /// secondary.
    pub fn devices(&self) -> (r: Vec<&DevicePathBuf>)
        ensures
            r@.len() == (if self.has_primary() { 1int } else { 0 }) + (if self.has_secondary() { 1int } else { 0 }),
            self.has_primary() ==> *r@[0] == self.spec_primary()->0,
            self.has_secondary() ==> *r@.last() == self.spec_secondary()->0,
    {
        let mut r: Vec<&DevicePathBuf> = Vec::new();
        match &self.primary {
            Some(p) => r.push(p),
            None => {},
        }
        match &self.secondary {
            Some(s) => r.push(s),
            None => {},
        }
        r
    }
}

impl<F: Fn()> BootOptions<F> {
    /// Runs the failure handler, if one is set.
    pub fn handle_failure(&self)
        requires
            forall|h: &F| h.requires(()),
        ensures
            self.has_failure_handler() ==> self.spec_failure_handler()->0.ensures((), ()),
    {
        match &self.failure_handler {
            Some(handler) => handler(),
            None => {},
        }
    }
}

impl<F> Default for BootOptions<F> {
    fn default() -> (r: Self)
        ensures
            !r.has_primary(),
            !r.has_secondary(),
            r.spec_hotkey() is None,
            !r.has_failure_handler(),
    {
        BootOptions { primary: None, secondary: None, hotkey: None, failure_handler: None }
    }
}

/// Seconds of the watchdog timer that runs while a boot image runs.
pub const WATCHDOG_TIMEOUT_SECONDS: usize = 300;

/// The End of DXE event group, as the bytes of its GUID.
pub open spec fn end_of_dxe_group() -> Seq<u8> {
    seq![0x7a, 0x96, 0xce, 0x02, 0x7e, 0xdd, 0xfc, 0x4f, 0x9e, 0xe7, 0x81, 0x0c, 0xf0, 0x47, 0x08, 0x80]
}

/// The Ready to Boot event group, as the bytes of its GUID.
pub open spec fn ready_to_boot_group() -> Seq<u8> {
    seq![0xb3, 0x8f, 0xe8, 0x7c, 0xd7, 0x4b, 0x79, 0x46, 0x87, 0xa8, 0xa8, 0xd8, 0xde, 0xe5, 0x0d, 0x2b]
}

/// The GUID of the End of DXE event group.
pub fn end_of_dxe_guid() -> (r: [u8; 16])
    ensures
        r@ == end_of_dxe_group(),
{
    let r: [u8; 16] = [0x7a, 0x96, 0xce, 0x02, 0x7e, 0xdd, 0xfc, 0x4f, 0x9e, 0xe7, 0x81, 0x0c, 0xf0, 0x47, 0x08, 0x80];
    assert(r@ =~= end_of_dxe_group());
    r
}

/// The GUID of the Ready to Boot event group.
pub fn ready_to_boot_guid() -> (r: [u8; 16])
    ensures
        r@ == ready_to_boot_group(),
{
    let r: [u8; 16] = [0xb3, 0x8f, 0xe8, 0x7c, 0xd7, 0x4b, 0x79, 0x46, 0x87, 0xa8, 0xa8, 0xd8, 0xde, 0xe5, 0x0d, 0x2b];
    assert(r@ =~= ready_to_boot_group());
    r
}

/// What signalling the event group `group` gives, for the outcomes of the
/// calls that create an event in it, signal the event and close it: the
/// first failure, else the outcome of closing.
pub open spec fn signal_outcome<C: FnOnce([u8; 16]) -> Result<usize, usize>, S: FnOnce(usize) -> Result<
    (),
    usize,
>, X: FnOnce(usize) -> Result<(), usize>>(
    create_event: C,
    signal_event: S,
    close_event: X,
    group: Seq<u8>,
    r: Result<(), usize>,
) -> bool {
    exists|g: [u8; 16], c: Result<usize, usize>|
        g@ == group && #[trigger] create_event.ensures((g,), c) && match c {
            Err(e) => r == Err::<(), usize>(e),
            Ok(event) => exists|sig: Result<(), usize>|
                #[trigger] signal_event.ensures((event,), sig) && match sig {
                    Err(e) => r == Err::<(), usize>(e),
                    Ok(_) => exists|x: Result<(), usize>| #[trigger] close_event.ensures((event,), x) && r == x,
                },
        }
}

/// Creates an event in `group`, signals it and closes it, stopping at the
/// first failure.
fn signal_event_group<C: FnOnce([u8; 16]) -> Result<usize, usize>, S: FnOnce(usize) -> Result<(), usize>, X: FnOnce(
    usize,
) -> Result<(), usize>>(group: [u8; 16], create_event: C, signal_event: S, close_event: X) -> (r: Result<
    (),
    usize,
>)
    requires
        create_event.requires((group,)),
        forall|e: usize| signal_event.requires((e,)),
        forall|e: usize| close_event.requires((e,)),
    ensures
        signal_outcome(create_event, signal_event, close_event, group@, r),
{
    let c = create_event(group);
    assert(create_event.ensures((group,), c));
    match c {
        Err(e) => Err(e),
        Ok(event) => {
            let sig = signal_event(event);
            assert(signal_event.ensures((event,), sig));
            match sig {
                Err(e) => Err(e),
                Ok(()) => {
                    let x = close_event(event);
                    assert(close_event.ensures((event,), x));
                    x
                },
            }
        },
    }
}

/// Signals End of DXE, for platforms that orchestrate the boot
/// themselves: an event of the End of DXE group is created, signalled and
/// closed; the first of these calls that fails gives the error.
pub fn signal_bds_phase_entry<C: FnOnce([u8; 16]) -> Result<usize, usize>, S: FnOnce(usize) -> Result<(), usize>, X: FnOnce(
    usize,
) -> Result<(), usize>>(create_event: C, signal_event: S, close_event: X) -> (r: Result<(), usize>)
    requires
        forall|g: [u8; 16]| create_event.requires((g,)),
        forall|e: usize| signal_event.requires((e,)),
        forall|e: usize| close_event.requires((e,)),
    ensures
        signal_outcome(create_event, signal_event, close_event, end_of_dxe_group(), r),
{
    signal_event_group(end_of_dxe_guid(), create_event, signal_event, close_event)
}

/// Signals Ready to Boot, just before the first boot option is tried: an
/// event of the Ready to Boot group is created, signalled and closed; the
/// first of these calls that fails gives the error.
pub fn signal_ready_to_boot<C: FnOnce([u8; 16]) -> Result<usize, usize>, S: FnOnce(usize) -> Result<(), usize>, X: FnOnce(
    usize,
) -> Result<(), usize>>(create_event: C, signal_event: S, close_event: X) -> (r: Result<(), usize>)
    requires
        forall|g: [u8; 16]| create_event.requires((g,)),
        forall|e: usize| signal_event.requires((e,)),
        forall|e: usize| close_event.requires((e,)),
    ensures
        signal_outcome(create_event, signal_event, close_event, ready_to_boot_group(), r),
{
    signal_event_group(ready_to_boot_guid(), create_event, signal_event, close_event)
}

/// Loads and starts the image at `device_path`. `load_image` loads it and
/// answers its handle; the watchdog timer is set to
/// `WATCHDOG_TIMEOUT_SECONDS` before `start_image` starts it and disabled
/// (set to 0) when the image returns. A failure to load or to set the
/// watchdog is the error; else the outcome of starting the image is.
pub fn boot_from_device_path<L: FnOnce(&DevicePathBuf) -> Result<usize, usize>, W: Fn(usize) -> Result<(), usize>, S: FnOnce(
    usize,
) -> Result<(), usize>>(device_path: &DevicePathBuf, load_image: L, set_watchdog_timer: W, start_image: S) -> (r:
    Result<(), usize>)
    requires
        load_image.requires((device_path,)),
        forall|t: usize| set_watchdog_timer.requires((t,)),
        forall|h: usize| start_image.requires((h,)),
    ensures
        exists|l: Result<usize, usize>|
            #[trigger] load_image.ensures((device_path,), l) && match l {
                Err(e) => r == Err::<(), usize>(e),
                Ok(image) => exists|w: Result<(), usize>|
                    #[trigger] set_watchdog_timer.ensures((WATCHDOG_TIMEOUT_SECONDS,), w) && match w {
                        Err(e) => r == Err::<(), usize>(e),
                        Ok(_) => exists|s: Result<(), usize>, d: Result<(), usize>|
                            #[trigger] start_image.ensures((image,), s) && #[trigger] set_watchdog_timer.ensures(
                                (0usize,),
                                d,
                            ) && r == s,
                    },
            },
{
    let l = load_image(device_path);
    assert(load_image.ensures((device_path,), l));
    let image = match l {
        Ok(h) => h,
        Err(e) => {
            return Err(e);
        },
    };
    let w = set_watchdog_timer(WATCHDOG_TIMEOUT_SECONDS);
    assert(set_watchdog_timer.ensures((WATCHDOG_TIMEOUT_SECONDS,), w));
    match w {
        Err(e) => {
            return Err(e);
        },
        Ok(()) => {},
    }
    let s = start_image(image);
    let d = set_watchdog_timer(0);
    assert(start_image.ensures((image,), s) && set_watchdog_timer.ensures((0usize,), d));
    s
}

/// `f` was called on `a`: some outcome of calling it on `a` is known.
pub open spec fn called_on<A, R, F: Fn(A) -> R>(f: F, a: A) -> bool {
    exists|x: R| #[trigger] f.ensures((a,), x)
}

/// Connects every controller, so that the drivers they need are
/// dispatched. `locate_all_handles` finds the handles and
/// `connect_controller` connects one, recursively; the outcome of a
/// connection is not looked at. Only a failure to find the handles is an
/// error.
pub fn interleave_connect_and_dispatch<L: FnOnce() -> Result<Vec<usize>, usize>, C: Fn(usize) -> Result<(), usize>>(
    locate_all_handles: L,
    connect_controller: C,
) -> (r: Result<(), usize>)
    requires
        locate_all_handles.requires(()),
        forall|h: usize| connect_controller.requires((h,)),
    ensures
        exists|l: Result<Vec<usize>, usize>|
            #[trigger] locate_all_handles.ensures((), l) && match l {
                Err(e) => r == Err::<(), usize>(e),
                Ok(hs) => r == Ok::<(), usize>(()) && forall|k: int|
                    0 <= k < hs@.len() ==> #[trigger] called_on(connect_controller, hs@[k]),
            },
{
    let l = locate_all_handles();
    assert(locate_all_handles.ensures((), l));
    match l {
        Err(e) => Err(e),
        Ok(handles) => {
            let mut i: usize = 0;
            while i < handles.len()
                invariant
                    i <= handles@.len(),
                    forall|h: usize| connect_controller.requires((h,)),
                    forall|k: int| 0 <= k < i ==> #[trigger] called_on(connect_controller, handles@[k]),
                decreases handles@.len() - i,
            {
                let c = connect_controller(handles[i]);
                assert(connect_controller.ensures((handles@[i as int],), c));
                assert(called_on(connect_controller, handles@[i as int]));
                i += 1;
            }
            Ok(())
        },
    }
}

/// The GUID of the Graphics Output protocol, as its bytes.
pub open spec fn graphics_output_protocol() -> Seq<u8> {
    seq![0xde, 0xa9, 0x42, 0x90, 0xdc, 0x23, 0x38, 0x4a, 0x96, 0xfb, 0x7a, 0xde, 0xd0, 0x80, 0x51, 0x6a]
}

/// The GUID of the Simple Text Input protocol, as its bytes.
pub open spec fn simple_text_input_protocol() -> Seq<u8> {
    seq![0xc1, 0x77, 0x74, 0x38, 0xc7, 0x69, 0xd2, 0x11, 0x8e, 0x39, 0x00, 0xa0, 0xc9, 0x69, 0x72, 0x3b]
}

/// The console variables.
#[derive(Debug, Clone, Copy, PartialEq, Eq, Structural)]
pub enum ConsoleVariable {
    /// The console input devices.
    ConIn,
    /// The console output devices.
    ConOut,
    /// The standard error devices.
    ErrOut,
}

/// The End Instance node that separates the instances of a device path.
pub open spec fn end_instance_node() -> Seq<u8> {
    seq![0x7F, 0x01, 0x04, 0x00]
}

/// The End Entire node that ends a device path.
pub open spec fn end_entire_node() -> Seq<u8> {
    seq![0x7F, 0xFF, 0x04, 0x00]
}

/// A device path without the End Entire node that ends it, if it has one.
pub open spec fn path_instance(p: Seq<u8>) -> Seq<u8> {
    if p.len() >= 4 && p.subrange(p.len() - 4, p.len() as int) == end_entire_node() {
        p.take(p.len() - 4)
    } else {
        p
    }
}

/// The instances of device paths `ps`, separated by End Instance nodes.
pub open spec fn joined_instances(ps: Seq<Seq<u8>>) -> Seq<u8>
    decreases ps.len(),
{
    if ps.len() == 0 {
        Seq::empty()
    } else if ps.len() == 1 {
        path_instance(ps[0])
    } else {
        joined_instances(ps.drop_last()) + end_instance_node() + path_instance(ps.last())
    }
}

/// The multi-instance device path made of device paths `ps`: their
/// instances, separated by End Instance nodes and ended by an End Entire
/// node.
pub open spec fn multi_instance_path(ps: Seq<Seq<u8>>) -> Seq<u8> {
    joined_instances(ps) + end_entire_node()
}

/// The multi-instance device path made of `paths` (see
/// `multi_instance_path`).
pub fn multi_instance_device_path(paths: &Vec<Vec<u8>>) -> (r: Vec<u8>)
    requires
        paths@.len() > 0,
    ensures
        r@ == multi_instance_path(paths_view(paths@)),
{
    let mut out: Vec<u8> = Vec::new();
    let mut i: usize = 0;
    while i < paths.len()
        invariant
            i <= paths@.len(),
            paths@.len() > 0,
            i == 0 ==> out@ == Seq::<u8>::empty(),
            i > 0 ==> out@ == joined_instances(paths_view(paths@).take(i as int)),
        decreases paths@.len() - i,
    {
        let ghost before = out@;
        if i > 0 {
            out.push(0x7F);
            out.push(0x01);
            out.push(0x04);
            out.push(0x00);
        }
        let p = &paths[i];
        let n = p.len();
        let has_end = n >= 4 && p[n - 4] == 0x7F && p[n - 3] == 0xFF && p[n - 2] == 0x04 && p[n - 1] == 0x00;
        let keep = if has_end { n - 4 } else { n };
        let ghost mid = out@;
        let mut j: usize = 0;
        while j < keep
            invariant
                j <= keep <= n,
                n == p@.len(),
                out@ == mid + p@.take(j as int),
            decreases keep - j,
        {
            out.push(p[j]);
            proof {
                assert(p@.take(j + 1) =~= p@.take(j as int).push(p@[j as int]));
            }
            j += 1;
        }
        proof {
            let ps = paths_view(paths@);
            assert(ps[i as int] == p@);
            if has_end {
                assert(p@.subrange(n - 4, n as int) =~= end_entire_node());
            } else if n >= 4 {
                assert(p@.subrange(n - 4, n as int) != end_entire_node()) by {
                    if p@.subrange(n - 4, n as int) == end_entire_node() {
                        assert(p@.subrange(n - 4, n as int)[0] == p@[n - 4]);
                        assert(p@.subrange(n - 4, n as int)[1] == p@[n - 3]);
                        assert(p@.subrange(n - 4, n as int)[2] == p@[n - 2]);
                        assert(p@.subrange(n - 4, n as int)[3] == p@[n - 1]);
                    }
                }
            }
            assert(p@.take(keep as int) == path_instance(p@));
            assert(ps.take(i + 1).drop_last() =~= ps.take(i as int));
            assert(ps.take(i + 1).last() == ps[i as int]);
            if i == 0 {
                assert(out@ =~= path_instance(p@));
                assert(ps.take(1).len() == 1);
                assert(ps.take(1)[0] == ps[0]);
            } else {
                assert(out@ =~= before + end_instance_node() + path_instance(p@));
            }
        }
        i += 1;
    }
    proof {
        assert(paths_view(paths@).take(paths@.len() as int) =~= paths_view(paths@));
    }
    out.push(0x7F);
    out.push(0xFF);
    out.push(0x04);
    out.push(0x00);
    out
}

/// The contents of a list of byte vectors.
pub open spec fn paths_view(vs: Seq<Vec<u8>>) -> Seq<Seq<u8>> {
    vs.map_values(|v: Vec<u8>| v@)
}

/// The handles that a lookup found: none when it failed.
pub open spec fn found_handles(l: Result<Vec<usize>, usize>) -> Seq<usize> {
    match l {
        Ok(v) => v@,
        Err(_) => Seq::empty(),
    }
}

/// `ps` are the device paths that `device_path_of` gave for handles `hs`,
/// in order, handles without a device path skipped.
pub open spec fn paths_of_handles<P: Fn(usize) -> Option<Vec<u8>>>(
    device_path_of: P,
    hs: Seq<usize>,
    ps: Seq<Seq<u8>>,
) -> bool
    decreases hs.len(),
{
    if hs.len() == 0 {
        ps.len() == 0
    } else {
        exists|o: Option<Vec<u8>>|
            #[trigger] device_path_of.ensures((hs.last(),), o) && match o {
                None => paths_of_handles(device_path_of, hs.drop_last(), ps),
                Some(v) => ps.len() > 0 && ps.last() == v@ && paths_of_handles(
                    device_path_of,
                    hs.drop_last(),
                    ps.drop_last(),
                ),
            }
    }
}

/// The device paths of the handles with the protocol `guid`, found by
/// `locate_by_protocol` and `device_path_of`.
fn console_paths<L: Fn([u8; 16]) -> Result<Vec<usize>, usize>, P: Fn(usize) -> Option<Vec<u8>>>(
    guid: [u8; 16],
    locate_by_protocol: &L,
    device_path_of: &P,
) -> (r: Vec<Vec<u8>>)
    requires
        forall|g: [u8; 16]| locate_by_protocol.requires((g,)),
        forall|h: usize| device_path_of.requires((h,)),
    ensures
        exists|l: Result<Vec<usize>, usize>|
            #[trigger] locate_by_protocol.ensures((guid,), l) && paths_of_handles(
                *device_path_of,
                found_handles(l),
                paths_view(r@),
            ),
{
    let l = locate_by_protocol(guid);
    assert(locate_by_protocol.ensures((guid,), l));
    let handles: Vec<usize> = match l {
        Ok(v) => v,
        Err(_) => Vec::new(),
    };
    let ghost hs = handles@;
    assert(hs == found_handles(l));
    let mut paths: Vec<Vec<u8>> = Vec::new();
    let mut i: usize = 0;
    assert(hs.take(0) =~= Seq::<usize>::empty());
    assert(paths_view(paths@) =~= Seq::<Seq<u8>>::empty());
    while i < handles.len()
        invariant
            i <= hs.len(),
            handles@ == hs,
            forall|h: usize| device_path_of.requires((h,)),
            paths_of_handles(*device_path_of, hs.take(i as int), paths_view(paths@)),
        decreases hs.len() - i,
    {
        let o = device_path_of(handles[i]);
        let ghost before = paths_view(paths@);
        assert(device_path_of.ensures((hs[i as int],), o));
        assert(hs.take(i + 1).drop_last() =~= hs.take(i as int));
        assert(hs.take(i + 1).last() == hs[i as int]);
        match o {
            Some(p) => {
                let ghost pv = p@;
                paths.push(p);
                assert(paths_view(paths@) =~= before.push(pv));
                assert(paths_view(paths@).drop_last() =~= before);
            },
            None => {},
        }
        i += 1;
    }
    assert(hs.take(hs.len() as int) =~= hs);
    paths
}

/// `set_variable` was called to write `var` with the bytes `bytes`.
pub open spec fn written<W: Fn(ConsoleVariable, Vec<u8>) -> Result<(), usize>>(
    set_variable: W,
    var: ConsoleVariable,
    bytes: Seq<u8>,
) -> bool {
    exists|v: Vec<u8>, x: Result<(), usize>| v@ == bytes && #[trigger] set_variable.ensures((var, v), x)
}

/// Discovers the console devices and writes the console variables: the
/// handles with the Graphics Output protocol, then those with the Simple
/// Text Input protocol, are found with `locate_by_protocol` (a failed
/// lookup finds none) and their device paths with `device_path_of`; the
/// device paths of the graphics outputs are written as one multi-instance
/// device path to ConOut and ErrOut, those of the text inputs to ConIn,
/// with `set_variable`. A variable is not written when no device path was
/// found for it. Writing failures are not errors.
pub fn discover_console_devices<
    L: Fn([u8; 16]) -> Result<Vec<usize>, usize>,
    P: Fn(usize) -> Option<Vec<u8>>,
    W: Fn(ConsoleVariable, Vec<u8>) -> Result<(), usize>,
>(locate_by_protocol: L, device_path_of: P, set_variable: W) -> (r: Result<(), usize>)
    requires
        forall|g: [u8; 16]| locate_by_protocol.requires((g,)),
        forall|h: usize| device_path_of.requires((h,)),
        forall|var: ConsoleVariable, v: Vec<u8>| set_variable.requires((var, v)),
    ensures
        r is Ok,
        exists|g: [u8; 16], l: Result<Vec<usize>, usize>, ps: Seq<Seq<u8>>|
            g@ == graphics_output_protocol() && #[trigger] locate_by_protocol.ensures((g,), l)
                && #[trigger] paths_of_handles(device_path_of, found_handles(l), ps) && (ps.len() > 0 ==> written(
                set_variable,
                ConsoleVariable::ConOut,
                multi_instance_path(ps),
            ) && written(set_variable, ConsoleVariable::ErrOut, multi_instance_path(ps))),
        exists|g: [u8; 16], l: Result<Vec<usize>, usize>, ps: Seq<Seq<u8>>|
            g@ == simple_text_input_protocol() && #[trigger] locate_by_protocol.ensures((g,), l)
                && #[trigger] paths_of_handles(device_path_of, found_handles(l), ps) && (ps.len() > 0 ==> written(
                set_variable,
                ConsoleVariable::ConIn,
                multi_instance_path(ps),
            )),
{
    let gop: [u8; 16] = [0xde, 0xa9, 0x42, 0x90, 0xdc, 0x23, 0x38, 0x4a, 0x96, 0xfb, 0x7a, 0xde, 0xd0, 0x80, 0x51, 0x6a];
    assert(gop@ =~= graphics_output_protocol());
    let outputs = console_paths(gop, &locate_by_protocol, &device_path_of);
    if outputs.len() > 0 {
        let path = multi_instance_device_path(&outputs);
        let copy = path.clone();
        assert(copy@ == path@);
        let x1 = set_variable(ConsoleVariable::ConOut, path);
        assert(set_variable.ensures((ConsoleVariable::ConOut, path), x1));
        let x2 = set_variable(ConsoleVariable::ErrOut, copy);
        assert(set_variable.ensures((ConsoleVariable::ErrOut, copy), x2));
    }
    let input: [u8; 16] = [0xc1, 0x77, 0x74, 0x38, 0xc7, 0x69, 0xd2, 0x11, 0x8e, 0x39, 0x00, 0xa0, 0xc9, 0x69, 0x72, 0x3b];
    assert(input@ =~= simple_text_input_protocol());
    let inputs = console_paths(input, &locate_by_protocol, &device_path_of);
    if inputs.len() > 0 {
        let path = multi_instance_device_path(&inputs);
        let x3 = set_variable(ConsoleVariable::ConIn, path);
        assert(set_variable.ensures((ConsoleVariable::ConIn, path), x3));
    }
    Ok(())
}

/// The outcome of one step of the boot sequence: a failure ends the
/// sequence with it, else `rest` holds of what follows.
pub open spec fn then_step(step: Result<(), usize>, r: Result<(), usize>, rest: bool) -> bool {
    match step {
        Err(_) => r == step,
        Ok(_) => rest,
    }
}

impl BootOrchestrator {
    /// Runs the boot sequence: connects and dispatches the devices, signals
    /// End of DXE, discovers the consoles and signals Ready to Boot, each
    /// step's failure ending the sequence with its error. Then each device
    /// of `boot_options` is booted in order; a device that boots never
    /// returns, so `boot` only ever answers a failure. When all have
    /// failed, the failure handler runs and `Ok` is returned: nothing is
    /// left to boot, and the caller halts.
    pub fn entry_point<
        F: Fn(),
        I: FnOnce() -> Result<(), usize>,
        E: FnOnce() -> Result<(), usize>,
        D: FnOnce() -> Result<(), usize>,
        T: FnOnce() -> Result<(), usize>,
        B: Fn(&DevicePathBuf) -> Result<(), usize>,
    >(
        self,
        boot_options: &BootOptions<F>,
        connect_and_dispatch: I,
        signal_end_of_dxe: E,
        discover_consoles: D,
        signal_ready: T,
        boot: B,
    ) -> (r: Result<(), usize>)
        requires
            connect_and_dispatch.requires(()),
            signal_end_of_dxe.requires(()),
            discover_consoles.requires(()),
            signal_ready.requires(()),
            forall|d: &DevicePathBuf| boot.requires((d,)),
            forall|d: &DevicePathBuf, x: Result<(), usize>| #[trigger] boot.ensures((d,), x) ==> x is Err,
            forall|h: &F| h.requires(()),
        ensures
            exists|a: Result<(), usize>|
                #[trigger] connect_and_dispatch.ensures((), a) && then_step(
                    a,
                    r,
                    exists|b: Result<(), usize>|
                        #[trigger] signal_end_of_dxe.ensures((), b) && then_step(
                            b,
                            r,
                            exists|c: Result<(), usize>|
                                #[trigger] discover_consoles.ensures((), c) && then_step(
                                    c,
                                    r,
                                    exists|t: Result<(), usize>|
                                        #[trigger] signal_ready.ensures((), t) && then_step(
                                            t,
                                            r,
                                            r is Ok && (boot_options.has_failure_handler()
                                                ==> boot_options.spec_failure_handler()->0.ensures((), ()))
                                                && (boot_options.has_primary() ==> called_on(
                                                boot,
                                                &boot_options.spec_primary()->0,
                                            )) && (boot_options.has_secondary() ==> called_on(
                                                boot,
                                                &boot_options.spec_secondary()->0,
                                            )),
                                        ),
                                ),
                        ),
                ),
    {
        let a = connect_and_dispatch();
        assert(connect_and_dispatch.ensures((), a));
        if a.is_err() {
            return a;
        }
        let b = signal_end_of_dxe();
        assert(signal_end_of_dxe.ensures((), b));
        if b.is_err() {
            return b;
        }
        let c = discover_consoles();
        assert(discover_consoles.ensures((), c));
        if c.is_err() {
            return c;
        }
        let t = signal_ready();
        assert(signal_ready.ensures((), t));
        if t.is_err() {
            return t;
        }
        let devices = boot_options.devices();
        let mut i: usize = 0;
        while i < devices.len()
            invariant
                i <= devices@.len(),
                forall|d: &DevicePathBuf| boot.requires((d,)),
                forall|k: int| 0 <= k < i ==> #[trigger] called_on(boot, devices@[k]),
            decreases devices@.len() - i,
        {
            let x = boot(devices[i]);
            assert(boot.ensures((devices@[i as int],), x));
            assert(called_on(boot, devices@[i as int]));
            i += 1;
        }
        proof {
            if boot_options.has_primary() {
                assert(called_on(boot, devices@[0]));
            }
            if boot_options.has_secondary() {
                assert(called_on(boot, devices@[devices@.len() - 1]));
            }
        }
        boot_options.handle_failure();
        Ok(())
    }
}

} // verus!
