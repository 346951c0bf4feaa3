use std::cell::Cell;

use patina_components::status_code::callback::RscHandlerCallback;
use patina_components::status_code::component::StatusCodeInit;
use patina_components::status_code::error::{
    result_status, RscHandlerError, EFI_ALREADY_STARTED, EFI_NOT_FOUND, EFI_NOT_READY, EFI_SUCCESS,
};
use patina_components::status_code::protocol::{
    efi_status_code_payload, status_code_data_from_memory, EfiStatusCodeHeader,
};
use patina_components::status_code::service::{StatusCodeData, StatusCodeType, StatusCodeValue};
use patina_components::status_code::status_code::{
    RscDataEntry, RscHandlerCallbackEntry, StandardRscHandler, TPL_APPLICATION, TPL_HIGH_LEVEL,
};

/// Callbacks are told apart by the address of their function; these stand
/// for two distinct functions.
const DUMMY_CALLBACK: RscHandlerCallback = RscHandlerCallback::Rust(0x1000);
const DIRECT_CALLBACK: RscHandlerCallback = RscHandlerCallback::Rust(0x2000);

fn no_signal(_ev: usize) -> Result<(), usize> {
    Ok(())
}

fn no_invoke(_cb: RscHandlerCallback, _d: &RscDataEntry) {}

#[test]
fn test_register_and_unregister_callback() {
    let mut handler = StandardRscHandler::new_uninit();
    handler.initialize().unwrap();

    let tpl = TPL_APPLICATION;
    assert!(handler.register_callback(DUMMY_CALLBACK, tpl, |_tpl| Ok(1)).is_ok());
    assert_eq!(
        handler.register_callback(DUMMY_CALLBACK, tpl, |_tpl| Ok(1)).unwrap_err(),
        RscHandlerError::CallbackAlreadyRegistered
    );
    assert!(handler.unregister_callback(DUMMY_CALLBACK, |_ev| Ok(())).is_ok());
    assert_eq!(
        handler.unregister_callback(DUMMY_CALLBACK, |_ev| Ok(())).unwrap_err(),
        RscHandlerError::UnregisterNotFound
    );
}

#[test]
fn test_register_with_high_tpl_creates_event() {
    let mut handler = StandardRscHandler::new_uninit();
    handler.initialize().unwrap();
    let created = Cell::new(0);
    let tpl = TPL_HIGH_LEVEL;
    assert!(handler
        .register_callback(DUMMY_CALLBACK, tpl, |_tpl| {
            created.set(created.get() + 1);
            Ok(1)
        })
        .is_ok());
    assert_eq!(created.get(), 1);
    assert_eq!(handler.callback_list[0].event_handle, Some(1));
}

#[test]
fn test_initialize_twice_fails() {
    let mut handler = StandardRscHandler::new_uninit();
    handler.initialize().unwrap();
    assert_eq!(handler.initialize(), Err(RscHandlerError::AlreadyInitialized));
}

#[test]
fn test_report_status_code_calls_rust_callback_immediately() {
    let mut handler = StandardRscHandler::new_uninit();
    handler.initialize().unwrap();
    let tpl = TPL_HIGH_LEVEL + 1;
    assert!(handler.register_callback(DIRECT_CALLBACK, tpl, |_tpl| Ok(1)).is_ok());

    let called = Cell::new(false);
    let code_type: StatusCodeType = 0;
    let value: StatusCodeValue = 0;
    assert!(handler
        .report_status_code(code_type, value, 1, None, None, no_signal, |cb, d: &RscDataEntry| {
            assert_eq!(cb, DIRECT_CALLBACK);
            assert_eq!(d.instance, 1);
            called.set(true);
        })
        .is_ok());
    assert!(called.get());
    assert!(handler.callback_list[0].status_code_buffer.is_empty());
}

#[test]
fn test_report_status_code_buffers_and_signals_event() {
    let mut handler = StandardRscHandler::new_uninit();
    handler.initialize().unwrap();
    let tpl = TPL_APPLICATION;
    assert!(handler.register_callback(DUMMY_CALLBACK, tpl, |_tpl| Ok(1)).is_ok());

    let signalled = Cell::new(0);
    let code_type: StatusCodeType = 0;
    let value: StatusCodeValue = 0;
    assert!(handler
        .report_status_code(
            code_type,
            value,
            42,
            None,
            None,
            |ev| {
                assert_eq!(ev, 1);
                signalled.set(signalled.get() + 1);
                Ok(())
            },
            no_invoke
        )
        .is_ok());
    assert_eq!(signalled.get(), 1);
    assert_eq!(handler.callback_list[0].status_code_buffer.len(), 1);
    assert_eq!(handler.callback_list[0].status_code_buffer[0].instance, 42);
}

#[test]
fn register_needs_initialization_below_high_level() {
    let mut handler = StandardRscHandler::new_uninit();
    assert_eq!(
        handler.register_callback(DUMMY_CALLBACK, TPL_APPLICATION, |_tpl| Ok(1)),
        Err(RscHandlerError::NotInitialized)
    );
    assert!(handler.callback_list.is_empty());
    // Above TPL_HIGH_LEVEL no event is needed.
    assert!(handler.register_callback(DUMMY_CALLBACK, TPL_HIGH_LEVEL + 1, |_tpl| Ok(1)).is_ok());
}

#[test]
fn event_creation_failure_is_reported() {
    let mut handler = StandardRscHandler::new_uninit();
    handler.initialize().unwrap();
    assert_eq!(
        handler.register_callback(DUMMY_CALLBACK, TPL_APPLICATION, |_tpl| Err(77)),
        Err(RscHandlerError::EventCreationFailed(77))
    );
    assert!(handler.callback_list.is_empty());
}

#[test]
fn unregister_reports_close_failure_after_removal() {
    let mut handler = StandardRscHandler::new_uninit();
    handler.initialize().unwrap();
    handler.register_callback(RscHandlerCallback::Efi(0x1000), TPL_APPLICATION, |_tpl| Ok(9)).unwrap();
    assert_eq!(
        handler.unregister_callback(RscHandlerCallback::Efi(0x1000), |ev| if ev == 9 { Err(5) } else { Ok(()) }),
        Err(RscHandlerError::EventCreationFailed(5))
    );
    assert!(handler.callback_list.is_empty());
}

#[test]
fn reentrant_report_is_refused() {
    let mut handler = StandardRscHandler::new_uninit();
    handler.initialize().unwrap();
    handler.register_callback(DUMMY_CALLBACK, TPL_APPLICATION, |_tpl| Ok(1)).unwrap();
    // A failing signal ends the report; the next report is not refused.
    assert_eq!(
        handler.report_status_code(1, 2, 3, None, None, |_ev| Err(11), no_invoke),
        Err(RscHandlerError::EventCreationFailed(11))
    );
    assert!(!handler.report_status_code_entry);
    assert_eq!(handler.report_status_code(1, 2, 3, None, None, no_signal, no_invoke), Ok(()));
    assert_eq!(handler.callback_list[0].status_code_buffer.len(), 2);
    // A report made while another is in progress is refused and changes nothing.
    handler.report_status_code_entry = true;
    assert_eq!(
        handler.report_status_code(1, 2, 3, None, None, no_signal, no_invoke),
        Err(RscHandlerError::ReentrantReportStatusCode)
    );
    assert_eq!(handler.callback_list[0].status_code_buffer.len(), 2);
}

#[test]
fn process_all_hands_out_and_empties_buffer() {
    let mut entry = RscHandlerCallbackEntry::new(DUMMY_CALLBACK, TPL_APPLICATION);
    let data = StatusCodeData {
        data_header: EfiStatusCodeHeader { header_size: 20, data_size: 2, data_type: [7; 16] },
        data_bytes: vec![0xAA, 0xBB],
    };
    entry.status_code_buffer.push(RscDataEntry {
        code_type: 1,
        value: 2,
        instance: 3,
        reserved: 0,
        caller_id: Some([1; 16]),
        status_code_data: Some(data.clone()),
    });
    let seen = Cell::new(0);
    entry.process_all(|_cb, d: &RscDataEntry| {
        assert_eq!(d.status_code_data.as_ref().unwrap().data_bytes, vec![0xAA, 0xBB]);
        seen.set(seen.get() + 1);
    });
    assert_eq!(seen.get(), 1);
    assert!(entry.status_code_buffer.is_empty());
}

#[test]
fn payload_and_status_mapping() {
    let data = StatusCodeData {
        data_header: EfiStatusCodeHeader { header_size: 0x14, data_size: 2, data_type: [3; 16] },
        data_bytes: vec![0xAA, 0xBB],
    };
    let p = efi_status_code_payload(&data);
    assert_eq!(&p[0..4], &[0x14, 0, 2, 0]);
    assert_eq!(&p[4..20], &[3; 16]);
    assert_eq!(&p[20..], &[0xAA, 0xBB]);
    assert_eq!(result_status(Ok(())), EFI_SUCCESS);
    assert_eq!(result_status(Err(RscHandlerError::CallbackAlreadyRegistered)), EFI_ALREADY_STARTED);
    assert_eq!(result_status(Err(RscHandlerError::UnregisterNotFound)), EFI_NOT_FOUND);
    assert_eq!(result_status(Err(RscHandlerError::NotInitialized)), EFI_NOT_READY);
    assert_eq!(RscHandlerError::EventCreationFailed(123).to_status(), 123);
    assert_eq!(EFI_NOT_FOUND, (1usize << (usize::BITS - 1)) | 14);
    let _ = StatusCodeInit::new();
}

#[test]
fn payload_reads_back_as_data() {
    let data = StatusCodeData {
        data_header: EfiStatusCodeHeader { header_size: 20, data_size: 3, data_type: [9; 16] },
        data_bytes: vec![1, 2, 3],
    };
    let memory = efi_status_code_payload(&data);
    let back = status_code_data_from_memory(&memory);
    assert_eq!(back.data_header, data.data_header);
    assert_eq!(back.data_bytes, data.data_bytes);
    // Data that starts further on than the header.
    let mut far = vec![24u8, 0, 2, 0];
    far.extend([5u8; 16]);
    far.extend([0xEE, 0xEE, 0xEE, 0xEE, 0x11, 0x22]);
    let d = status_code_data_from_memory(&far);
    assert_eq!(d.data_header.data_type, [5; 16]);
    assert_eq!(d.data_bytes, vec![0x11, 0x22]);
}
