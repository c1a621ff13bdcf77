//! Codes travel back from the external API only on a few axes; their
//! decoders accept exactly the declared codes and reject every other
//! integer.

use webgl2::glenum::DataHint;
use webgl2::glenum::Error;
use webgl2::glenum::FramebufferStatus;
use webgl2::glenum::RenderbufferFormat;
use webgl2::glenum::SyncStatus;
use webgl2::glenum::WaitStatus;

#[test]
fn data_hint_decodes_every_declared_code() {
    let variants = [
        DataHint::StaticDraw,
        DataHint::DynamicDraw,
        DataHint::StreamDraw,
        DataHint::StaticRead,
        DataHint::DynamicRead,
        DataHint::StreamRead,
        DataHint::StaticCopy,
        DataHint::DynamicCopy,
        DataHint::StreamCopy,
    ];
    for v in variants {
        assert_eq!(DataHint::from_code(v.code()), Some(v));
    }
    assert_eq!(DataHint::from_code(0x88E3), None);
    assert_eq!(DataHint::from_code(0), None);
}

#[test]
fn error_decodes_every_declared_code() {
    let variants = [
        Error::NoError,
        Error::InvalidEnum,
        Error::InvalidValue,
        Error::InvalidOperation,
        Error::InvalidFramebufferOperation,
        Error::OutOfMemory,
        Error::ContextLostWebgl,
    ];
    for v in variants {
        assert_eq!(Error::from_code(v.code()), Some(v));
    }
    assert_eq!(Error::from_code(0x0503), None);
}

#[test]
fn wait_status_decodes_every_declared_code() {
    let variants = [
        WaitStatus::AlreadySignaled,
        WaitStatus::TimeoutExpired,
        WaitStatus::ConditionSatisfied,
        WaitStatus::WaitFailed,
    ];
    for v in variants {
        assert_eq!(WaitStatus::from_code(v.code()), Some(v));
    }
    assert_eq!(WaitStatus::from_code(0x9119), None);
}

#[test]
fn framebuffer_status_decodes_every_declared_code() {
    let variants = [
        FramebufferStatus::FramebufferComplete,
        FramebufferStatus::FramebufferIncompleteAttachment,
        FramebufferStatus::FramebufferIncompleteMissingAttachment,
        FramebufferStatus::FramebufferIncompleteDimensions,
        FramebufferStatus::FramebufferUnsupported,
        FramebufferStatus::FramebufferIncompleteMultisample,
    ];
    for v in variants {
        assert_eq!(FramebufferStatus::from_code(v.code()), Some(v));
    }
    assert_eq!(FramebufferStatus::from_code(0x8CD8), None);
}

#[test]
fn renderbuffer_format_decodes_every_declared_code() {
    let variants = [
        RenderbufferFormat::Rgba4,
        RenderbufferFormat::Rgb565,
        RenderbufferFormat::Rgb5A1,
        RenderbufferFormat::DepthComponent16,
        RenderbufferFormat::StencilIndex8,
    ];
    for v in variants {
        assert_eq!(RenderbufferFormat::from_code(v.code()), Some(v));
    }
    assert_eq!(RenderbufferFormat::from_code(0x8058), None);
}

#[test]
fn sync_status_decodes_every_declared_code() {
    assert_eq!(SyncStatus::from_code(0x9119), Some(SyncStatus::Signaled));
    assert_eq!(SyncStatus::from_code(0x9118), Some(SyncStatus::Unsignaled));
    assert_eq!(SyncStatus::from_code(0x911A), None);
}
