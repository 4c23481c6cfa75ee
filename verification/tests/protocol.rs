use hurray::allocator::{
    aligned_handler_name, block_size, calloc_payload, multiarray_module, AlignedAllocatorCtx,
    AlreadyActive, NumpyTooOld, HANDLER_VERSION,
};
use hurray::buffer::{measured_alignment, must_copy, owned_allocation_size, CopyRequired};
use hurray::errors::ErrorClass;
use hurray::modes::{is_strict, relaxed, set_strict, strict, strict_var, RelaxedCtx, StrictCtx};
use hurray::native_buffer::{
    admit_capsule, check_abi, check_export, check_transported, dlpack_capsule_name,
    fresh_capsule_name, used_capsule_name, used_dlpack_capsule_name, Capsule, NativeBufferError,
};
use hurray::stream::{
    choose_destination, choose_source, NotATransport, Transport,
    check_fileno, check_stream_buffers, stream_error_class, ReaderYield, StreamError,
    StreamItemKind, StreamReaderState, StreamWriterState,
};
use hurray::file_io::{check_read_buffers, file_error_class, BufferCountError, IoFailure};

#[test]
fn set_strict_true_is_noop() {
    let mut var = strict_var();
    set_strict(&mut var, true);
    assert!(is_strict(&var));
}

#[test]
fn set_strict_false_enables_relaxed() {
    let mut var = strict_var();
    set_strict(&mut var, false);
    assert!(!is_strict(&var), "mode should be relaxed after set_strict(False)");
    set_strict(&mut var, true);
}

#[test]
fn is_strict_round_trips() {
    let mut var = strict_var();
    set_strict(&mut var, false);
    assert!(!is_strict(&var));
    set_strict(&mut var, true);
    assert!(is_strict(&var));
}

#[test]
fn strict_ctx_enters_and_restores() {
    let mut var = strict_var();
    set_strict(&mut var, false);
    let mut ctx = StrictCtx::new();
    ctx.enter(&mut var);
    assert!(is_strict(&var));
    assert!(!ctx.exit(&mut var));
    assert!(!is_strict(&var), "exit restores the relaxed mode in force on entry");
}

#[test]
fn relaxed_ctx_enters_and_restores() {
    let mut var = strict_var();
    set_strict(&mut var, true);
    assert!(is_strict(&var));
    let mut ctx = RelaxedCtx::new();
    ctx.enter(&mut var);
    assert!(!is_strict(&var), "should be relaxed inside ctx");
    ctx.exit(&mut var);
    assert!(is_strict(&var), "should be strict after ctx exits");
}

#[test]
fn nested_strict_in_relaxed_restores() {
    let mut var = strict_var();
    set_strict(&mut var, true);
    let mut r = relaxed();
    r.enter(&mut var);
    assert!(!is_strict(&var));
    let mut s = strict();
    s.enter(&mut var);
    assert!(is_strict(&var));
    s.exit(&mut var);
    assert!(!is_strict(&var), "should be back to relaxed after inner strict exits");
    r.exit(&mut var);
    assert!(is_strict(&var), "should be back to strict after outer relaxed exits");
}

#[test]
fn exiting_an_unentered_manager_changes_nothing() {
    let mut var = strict_var();
    set_strict(&mut var, false);
    let mut s = StrictCtx::new();
    s.exit(&mut var);
    assert!(!is_strict(&var));
}

#[test]
fn capsule_name_constants_are_correct() {
    assert_eq!(fresh_capsule_name().as_bytes(), b"hurray_buffer");
    assert_eq!(used_capsule_name().as_bytes(), b"used_hurray_buffer");
    assert_eq!(dlpack_capsule_name(), "dltensor_versioned");
    assert_eq!(used_dlpack_capsule_name(), "used_dltensor_versioned");
}

#[test]
fn from_hurray_buffer_rejects_wrong_capsule_name() {
    assert_eq!(
        admit_capsule(Some("not_hurray_buffer"), false, false),
        Err(NativeBufferError::WrongCapsule)
    );
    assert_eq!(NativeBufferError::WrongCapsule.class(), ErrorClass::Buffer);
}

#[test]
fn build_capsule_rejects_a_buffer_count_that_disagrees_with_the_descriptor() {
    let err = check_export(1, 2).unwrap_err();
    assert_eq!(err, NativeBufferError::ExportCountMismatch { declared: 2, supplied: 1 });
    assert_eq!(err.class(), ErrorClass::InvalidDescriptor);
}

#[test]
fn capsule_admission_and_consumption() {
    assert_eq!(admit_capsule(Some("hurray_buffer"), false, false), Ok(()));
    assert_eq!(
        admit_capsule(Some("used_hurray_buffer"), false, false),
        Err(NativeBufferError::AlreadyConsumed)
    );
    assert_eq!(admit_capsule(None, false, false), Err(NativeBufferError::WrongCapsule));
    // A fresh name over a null pointer is not a valid capsule.
    assert_eq!(
        admit_capsule(Some("hurray_buffer"), true, false),
        Err(NativeBufferError::WrongCapsule)
    );
    assert_eq!(
        admit_capsule(Some("hurray_buffer"), false, true),
        Err(NativeBufferError::Malformed)
    );
    assert_eq!(check_abi(3, 3), Ok(()));
    let err = check_abi(2, 3).unwrap_err();
    assert_eq!(err.class(), ErrorClass::Unsupported);
    assert_eq!(
        check_transported(1, Some(2)),
        Err(NativeBufferError::CountMismatch { carried: 1, declared: 2 })
    );
    assert_eq!(check_transported(0, Some(0)), Err(NativeBufferError::NoBuffers));
    assert_eq!(check_transported(2, Some(2)), Ok(()));
    assert_eq!(check_transported(2, None), Err(NativeBufferError::UndecodableDescriptor));
    assert_eq!(
        NativeBufferError::UndecodableDescriptor.class(),
        ErrorClass::InvalidDescriptor
    );
    assert_eq!(check_export(0, 0), Err(NativeBufferError::NothingToExport));
    assert_eq!(NativeBufferError::NoProtocol.class(), ErrorClass::Type);
}

#[test]
fn a_capsule_payload_is_destroyed_exactly_once() {
    let mut c = Capsule::new();
    assert_eq!(c.consume(), Ok(()));
    assert_eq!(c.consume(), Err(NativeBufferError::AlreadyConsumed));
    assert!(!c.finalize(), "the consumer already destroyed the payload");
    let untouched = Capsule::new();
    assert!(untouched.finalize(), "an unconsumed capsule is destroyed by its finalizer");
}

#[test]
fn calloc_refuses_a_size_that_overflows() {
    assert_eq!(calloc_payload(usize::MAX, 2), None);
    assert_eq!(calloc_payload(128, 4), Some(512));
}

#[test]
fn the_handler_declares_its_name_and_version() {
    assert_eq!(HANDLER_VERSION, 1);
    let name: Vec<u8> = aligned_handler_name().into_iter().take_while(|&c| c != 0).collect();
    assert_eq!(name, b"hurray_aligned");
    assert_eq!(aligned_handler_name().len(), 127);
}

#[test]
fn allocator_blocks_and_numpy_versions() {
    assert_eq!(block_size(0), Some(64));
    assert_eq!(block_size(4096), Some(4160));
    assert_eq!(block_size(usize::MAX), None);
    assert_eq!(block_size(isize::MAX as usize - 127), Some(isize::MAX as usize - 63));
    assert_eq!(block_size(isize::MAX as usize - 126), None);
    assert_eq!(multiarray_module(1, 21), Err(NumpyTooOld { major: 1, minor: 21 }));
    assert_eq!(multiarray_module(1, 22), Ok("numpy.core.multiarray"));
    assert_eq!(multiarray_module(2, 0), Ok("numpy._core.multiarray"));
    assert_eq!(multiarray_module(0, 99), Err(NumpyTooOld { major: 0, minor: 99 }));
}

#[test]
fn aligned_allocator_restores_the_previous_handler() {
    let mut ctx: AlignedAllocatorCtx<&str> = AlignedAllocatorCtx::new();
    assert_eq!(ctx.check_enter(), Ok(()));
    ctx.entered("default_allocator");
    assert_eq!(ctx.check_enter(), Err(AlreadyActive));
    assert_eq!(AlreadyActive.class(), ErrorClass::Runtime);
    assert_eq!(ctx.exit(), Some("default_allocator"));
    assert_eq!(ctx.exit(), None);
    assert_eq!(ctx.check_enter(), Ok(()));
}

#[test]
fn alignment_is_measured_and_capped_at_a_page() {
    assert_eq!(measured_alignment(0x1000, 0), 1);
    assert_eq!(measured_alignment(0x1010, 8), 16);
    assert_eq!(measured_alignment(0x1040, 8), 64);
    assert_eq!(measured_alignment(0x10000, 8), 4096);
    assert_eq!(measured_alignment(0, 8), 4096);
    assert_eq!(measured_alignment(7, 8), 1);
}

#[test]
fn copy_decisions_honour_the_request() {
    assert_eq!(must_copy(0x1040, 8, Some(true)), Ok(true));
    assert_eq!(must_copy(0x1040, 8, None), Ok(false));
    assert_eq!(must_copy(0x1010, 8, None), Ok(true));
    assert_eq!(must_copy(0x1010, 8, Some(false)), Err(CopyRequired { alignment: 16 }));
    assert_eq!(must_copy(0x1011, 0, Some(false)), Ok(false));
    assert_eq!(CopyRequired { alignment: 16 }.class(), ErrorClass::CopyRequired);
}

#[test]
fn owned_allocations_are_padded_to_the_alignment() {
    assert_eq!(owned_allocation_size(0), 0);
    assert_eq!(owned_allocation_size(1), 64);
    assert_eq!(owned_allocation_size(64), 64);
    assert_eq!(owned_allocation_size(4097), 4160);
}

#[test]
fn stream_reader_refuses_a_composite_by_name() {
    let mut r = StreamReaderState::new();
    assert!(r.should_read());
    let err = r.on_item(StreamItemKind::Composite(2)).unwrap_err();
    assert_eq!(err, StreamError::CompositeInStream(2));
    assert_eq!(err.class(), ErrorClass::Unsupported);
    assert_eq!(r.on_item(StreamItemKind::Tensor), Ok(ReaderYield::Tensor));
    assert_eq!(r.on_item(StreamItemKind::End), Ok(ReaderYield::Stop));
    assert!(!r.exit());
    assert!(!r.should_read());
}

#[test]
fn stream_writer_finishes_once() {
    let mut w = StreamWriterState::new(false);
    assert_eq!(w.check_write(), Ok(()));
    assert_eq!(w.check_getvalue(), Ok(()));
    assert!(w.finish());
    assert!(!w.finish());
    assert_eq!(w.check_write(), Err(StreamError::Finished));
    let to_file = StreamWriterState::new(true);
    assert_eq!(to_file.check_getvalue(), Err(StreamError::NoMemorySink));
    assert_eq!(StreamError::Finished.class(), ErrorClass::Stream);
}

#[test]
fn io_errors_map_onto_their_classes() {
    assert_eq!(stream_error_class(IoFailure::Io), ErrorClass::File);
    assert_eq!(stream_error_class(IoFailure::Core), ErrorClass::InvalidDescriptor);
    assert_eq!(stream_error_class(IoFailure::Other), ErrorClass::Stream);
    assert_eq!(file_error_class(IoFailure::Other), ErrorClass::File);
    assert_eq!(file_error_class(IoFailure::Core), ErrorClass::InvalidDescriptor);
    assert_eq!(check_fileno(-1), Err(StreamError::NegativeFileno(-1)));
    assert_eq!(check_fileno(3), Ok(3));
    assert_eq!(StreamError::NegativeFileno(-1).class(), ErrorClass::File);
}

#[test]
fn read_tensors_need_one_buffer_per_handle() {
    assert_eq!(check_read_buffers(0, 0), Err(BufferCountError::NoBuffers));
    assert_eq!(check_read_buffers(0, 2), Err(BufferCountError::NoBuffers));
    assert_eq!(
        check_read_buffers(1, 2),
        Err(BufferCountError::Mismatch { declared: 2, carried: 1 })
    );
    assert_eq!(check_read_buffers(2, 2), Ok(()));
    // Streams check the count first.
    assert_eq!(
        check_stream_buffers(0, 2),
        Err(BufferCountError::Mismatch { declared: 2, carried: 0 })
    );
    assert_eq!(check_stream_buffers(0, 0), Err(BufferCountError::NoBuffers));
}

#[test]
fn from_hurray_buffer_rejects_non_protocol_objects() {
    let err = hurray::native_buffer::check_consumable(false, None, true, true, 1, 1).unwrap_err();
    assert_eq!(err, NativeBufferError::NoProtocol);
    assert_eq!(err.class(), ErrorClass::Type);
}

#[test]
fn consumption_checks_run_in_order() {
    assert_eq!(hurray::native_buffer::check_consumable(true, Some("hurray_buffer"), false, false, 4, 4), Ok(()));
    assert_eq!(
        hurray::native_buffer::check_consumable(true, Some("used_hurray_buffer"), false, false, 4, 5),
        Err(NativeBufferError::AlreadyConsumed)
    );
    assert_eq!(
        hurray::native_buffer::check_consumable(true, Some("hurray_buffer"), false, false, 4, 5),
        Err(NativeBufferError::AbiMismatch { producer: 4, consumer: 5 })
    );
}

#[test]
fn transports_are_chosen_in_order() {
    assert_eq!(choose_source(true, Some(3), true), Ok(Transport::Memory));
    assert_eq!(choose_source(false, Some(3), true), Ok(Transport::Fd(3)));
    // A negative descriptor counts as no descriptor.
    assert_eq!(choose_source(false, Some(-1), true), Ok(Transport::Path));
    assert_eq!(choose_source(false, None, false), Err(NotATransport));
    assert_eq!(choose_destination(false, None, false), Ok(Transport::Memory));
    assert_eq!(choose_destination(true, Some(5), false), Ok(Transport::Fd(5)));
    assert_eq!(choose_destination(true, None, true), Ok(Transport::Path));
    assert_eq!(choose_destination(true, Some(-2), false), Err(NotATransport));
}
