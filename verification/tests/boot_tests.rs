use std::cell::{Cell, RefCell};

use patina_components::boot::{
    boot_from_device_path, discover_console_devices, ConsoleVariable, end_of_dxe_guid, interleave_connect_and_dispatch,
    ready_to_boot_guid, signal_bds_phase_entry, signal_ready_to_boot, BootOptions, BootOrchestrator, DevicePathBuf,
    WATCHDOG_TIMEOUT_SECONDS,
};
use patina_components::efi_status::{EFI_ERROR_BIT, EFI_NOT_FOUND};

const EFI_LOAD_ERROR: usize = EFI_ERROR_BIT + 1;
const EFI_ABORTED: usize = EFI_ERROR_BIT + 21;

fn end_entire_path() -> DevicePathBuf {
    // An End Entire node alone.
    DevicePathBuf(vec![0x7F, 0xFF, 0x04, 0x00])
}

#[test]
fn test_boot_from_device_path_success() {
    let device_path = end_entire_path();
    let timeouts = RefCell::new(Vec::new());
    let result = boot_from_device_path(
        &device_path,
        |_| Ok(0),
        |t| {
            timeouts.borrow_mut().push(t);
            Ok(())
        },
        |_| Ok(()),
    );
    assert!(result.is_ok());
    assert_eq!(*timeouts.borrow(), vec![WATCHDOG_TIMEOUT_SECONDS, 0]);
}

#[test]
fn test_boot_from_device_path_load_failure() {
    let device_path = end_entire_path();
    let watchdog = Cell::new(0);
    let result = boot_from_device_path(
        &device_path,
        |_| Err(EFI_NOT_FOUND),
        |_| {
            watchdog.set(watchdog.get() + 1);
            Ok(())
        },
        |_| Ok(()),
    );
    assert!(result.is_err());
    assert_eq!(result, Err(EFI_NOT_FOUND));
    assert_eq!(watchdog.get(), 0);
}

#[test]
fn test_boot_from_device_path_start_failure() {
    let device_path = end_entire_path();
    let result = boot_from_device_path(&device_path, |_| Ok(0), |_| Ok(()), |_| Err(EFI_LOAD_ERROR));
    assert!(result.is_err());
    assert_eq!(result, Err(EFI_LOAD_ERROR));
}

#[test]
fn test_boot_from_device_path_watchdog_disabled_on_failure() {
    let device_path = end_entire_path();
    let watchdog_disable_called = Cell::new(0);
    let _ = boot_from_device_path(
        &device_path,
        |_| Ok(0),
        |timeout| {
            if timeout == 0 {
                watchdog_disable_called.set(watchdog_disable_called.get() + 1);
            }
            Ok(())
        },
        |_| Err(EFI_ABORTED),
    );
    assert!(watchdog_disable_called.get() >= 1);
}

#[test]
fn test_signal_bds_phase_entry_signals_end_of_dxe() {
    let group = Cell::new([0u8; 16]);
    let result = signal_bds_phase_entry(
        |g| {
            group.set(g);
            Ok(0)
        },
        |_| Ok(()),
        |_| Ok(()),
    );
    assert!(result.is_ok());
    assert_eq!(group.get(), end_of_dxe_guid());
}

#[test]
fn test_signal_ready_to_boot() {
    let group = Cell::new([0u8; 16]);
    let result = signal_ready_to_boot(
        |g| {
            group.set(g);
            Ok(0)
        },
        |_| Ok(()),
        |_| Ok(()),
    );
    assert!(result.is_ok());
    assert_eq!(group.get(), ready_to_boot_guid());
}

#[test]
fn signalling_stops_at_the_first_failure() {
    let closed = Cell::new(false);
    let result = signal_ready_to_boot(
        |_| Ok(7),
        |e| {
            assert_eq!(e, 7);
            Err(EFI_ABORTED)
        },
        |_| {
            closed.set(true);
            Ok(())
        },
    );
    assert_eq!(result, Err(EFI_ABORTED));
    assert!(!closed.get());
    assert_eq!(signal_bds_phase_entry(|_| Err(EFI_NOT_FOUND), |_| Ok(()), |_| Ok(())), Err(EFI_NOT_FOUND));
    assert_eq!(signal_bds_phase_entry(|_| Ok(1), |_| Ok(()), |_| Err(EFI_LOAD_ERROR)), Err(EFI_LOAD_ERROR));
}

#[test]
fn connect_every_handle_and_discover_consoles() {
    let connected = RefCell::new(Vec::new());
    let result = interleave_connect_and_dispatch(
        || Ok(vec![3, 1, 2]),
        |h| {
            connected.borrow_mut().push(h);
            Err(EFI_NOT_FOUND)
        },
    );
    assert_eq!(result, Ok(()));
    assert_eq!(*connected.borrow(), vec![3, 1, 2]);
    assert_eq!(interleave_connect_and_dispatch(|| Err(EFI_NOT_FOUND), |_| Ok(())), Err(EFI_NOT_FOUND));
    let asked = Cell::new(0);
    let writes = RefCell::new(Vec::new());
    let found = discover_console_devices(
        |_| {
            asked.set(asked.get() + 1);
            Err(EFI_NOT_FOUND)
        },
        |_| None,
        |var, data| {
            writes.borrow_mut().push((var, data));
            Ok(())
        },
    );
    assert_eq!(found, Ok(()));
    assert_eq!(asked.get(), 2);
    assert!(writes.borrow().is_empty());
}

#[test]
fn console_variables_are_written_from_the_device_paths() {
    let gop = [0xde, 0xa9, 0x42, 0x90, 0xdc, 0x23, 0x38, 0x4a, 0x96, 0xfb, 0x7a, 0xde, 0xd0, 0x80, 0x51, 0x6a];
    let writes = RefCell::new(Vec::new());
    let result = discover_console_devices(
        |g| if g == gop { Ok(vec![1, 2, 3]) } else { Ok(vec![4]) },
        |h| match h {
            1 => Some(vec![0x01, 0x01, 0x7F, 0xFF, 0x04, 0x00]),
            2 => None,
            3 => Some(vec![0x02, 0x02, 0x7F, 0xFF, 0x04, 0x00]),
            _ => Some(vec![0x03, 0x7F, 0xFF, 0x04, 0x00]),
        },
        |var, data| {
            writes.borrow_mut().push((var, data));
            Err(EFI_ABORTED)
        },
    );
    assert_eq!(result, Ok(()));
    let out = vec![0x01, 0x01, 0x7F, 0x01, 0x04, 0x00, 0x02, 0x02, 0x7F, 0xFF, 0x04, 0x00];
    assert_eq!(
        *writes.borrow(),
        vec![
            (ConsoleVariable::ConOut, out.clone()),
            (ConsoleVariable::ErrOut, out),
            (ConsoleVariable::ConIn, vec![0x03, 0x7F, 0xFF, 0x04, 0x00]),
        ]
    );
}

#[test]
fn orchestrator_tries_devices_in_order_then_handles_failure() {
    let handled = Cell::new(false);
    let options = BootOptions::<fn()>::new(DevicePathBuf(vec![1]))
        .with_secondary(DevicePathBuf(vec![2]))
        .with_failure_handler(|| handled.set(true));
    let tried = RefCell::new(Vec::new());
    let result = BootOrchestrator.entry_point(
        &options,
        || Ok(()),
        || Ok(()),
        || Ok(()),
        || Ok(()),
        |d| {
            tried.borrow_mut().push(d.0.clone());
            Err(EFI_LOAD_ERROR)
        },
    );
    assert_eq!(result, Ok(()));
    assert_eq!(*tried.borrow(), vec![vec![1], vec![2]]);
    assert!(handled.get());
    // A failing step ends the sequence before any boot.
    let handled2 = Cell::new(false);
    let options2 = BootOptions::<fn()>::new(DevicePathBuf(vec![1])).with_failure_handler(|| handled2.set(true));
    let result2 = BootOrchestrator.entry_point(
        &options2,
        || Ok(()),
        || Err(EFI_ABORTED),
        || Ok(()),
        || Ok(()),
        |_| Err(EFI_LOAD_ERROR),
    );
    assert_eq!(result2, Err(EFI_ABORTED));
    assert!(!handled2.get());
}
