use perceptia::gl_tools::{shading_lang_version, GlslVersion};
use perceptia::buffer::Buffer as PlainBuffer;
use perceptia::defs::{Area, MemoryPoolId, Position, Size, SurfaceId, Vector};
use perceptia::env::{
    format_time_representation, get_time_representation, is_old_log, path_or_default, push_zero_padded,
};
use perceptia::image::PixelFormat;
use perceptia::ipc::major_minor;
use perceptia::keyboard_state::KeyMods;
use perceptia::memory::{mapped_memory_of, Buffer, MappedMemory, MemoryKind, MemoryPool};
use std::sync::Arc;
use perceptia::skylane::{display_id, ObjectId};
use perceptia::surface::SurfaceContext;
use perceptia::text::{i64_to_string, u64_to_string};
use perceptia::timing::Milliseconds;
use perceptia::transfer::Transfer;

#[test]
fn pools_of_buffers_give_views_into_the_buffer() {
    let buffer = Buffer::new(PixelFormat::ARGB8888, 2, 2, 8, vec![7; 16]);
    let pool = MemoryPool::new_from_buffer(buffer);
    let view = pool.get_memory_view(PixelFormat::XRGB8888, 4, 1, 1, 8);
    assert_eq!(view.get_offset(), 0);
    assert_eq!(view.get_stride(), 8);
    assert_eq!(view.get_format(), PixelFormat::XRGB8888);
    assert_eq!(view.get_mapped_address(), None);
    assert_eq!(view.get_buffered_data().map(|d| d.len()), Some(16));
    let copy = view.duplicate();
    assert_eq!(copy.get_offset(), 0);
    assert!(pool.take_mapped_memory().is_none());
}

#[test]
fn pools_of_mapped_memory_give_it_back_when_unshared() {
    let pool = MemoryPool::new_from_mapped_memory(MappedMemory::from_mapping(4096, 100));
    let view = pool.get_memory_view(PixelFormat::XRGB8888, 12, 1, 1, 4);
    assert_eq!(view.get_offset(), 12);
    assert_eq!(view.get_mapped_address(), Some(4096));
    assert!(view.get_buffered_data().is_none());
    drop(view);
    let memory = pool.take_mapped_memory().expect("no view is left");
    assert_eq!(memory.get_address(), 4096);
    assert_eq!(memory.get_size(), 100);

    let pool = MemoryPool::new_from_mapped_memory(MappedMemory::from_mapping(8192, 10));
    let _view = pool.get_memory_view(PixelFormat::XRGB8888, 0, 1, 1, 4);
    assert!(pool.take_mapped_memory().is_none());
}

#[test]
fn the_last_reference_to_mapped_memory_gives_it_back() {
    let memory = mapped_memory_of(Ok(MemoryKind::Mapped(MappedMemory::from_mapping(64, 32))))
        .expect("mapped memory is handed back");
    assert_eq!(memory.get_address(), 64);
    assert_eq!(memory.get_size(), 32);
    let buffer = Buffer::new(PixelFormat::ARGB8888, 1, 1, 4, vec![0; 4]);
    assert!(mapped_memory_of(Ok(MemoryKind::Buffered(buffer))).is_none());
    let shared = Arc::new(MemoryKind::Mapped(MappedMemory::from_mapping(64, 32)));
    assert!(mapped_memory_of(Err(shared)).is_none());
}

#[test]
fn buffers_report_emptiness_and_copy() {
    let mut buffer = PlainBuffer::empty();
    assert!(buffer.is_empty());
    let other = PlainBuffer::new(2, 3, 8, vec![1; 24]);
    assert!(!other.is_empty());
    buffer.assign_from(&other);
    assert_eq!(buffer.get_size(), Size::new(2, 3));
    assert!(!buffer.is_empty());
    let mut buffer = Buffer::empty();
    assert!(buffer.is_empty());
    buffer.assign_from(&Buffer::new(PixelFormat::ABGR8888, 1, 1, 4, vec![0; 4]));
    assert!(!buffer.is_empty());
    assert_eq!(PixelFormat::ABGR8888.get_size(), 4);
    assert_eq!(PixelFormat::XBGR8888.get_size(), 4);
    assert_eq!(PixelFormat::XRGB8888.get_size(), 4);
    assert_eq!(PixelFormat::ARGB8888.get_size(), 4);
}

#[test]
fn time_stamps_are_zero_padded() {
    assert_eq!(format_time_representation(5, 3, 0, 59), "005-03-00-59");
    assert_eq!(format_time_representation(365, 23, 59, 60), "365-23-59-60");
    let now = get_time_representation();
    assert_eq!(now.len(), 12);
    assert_eq!(now.chars().filter(|c| *c == '-').count(), 3);
    let mut s = String::from("x");
    push_zero_padded(&mut s, 1234, 2);
    assert_eq!(s, "x1234");
}

#[test]
fn numbers_are_written_in_decimal() {
    assert_eq!(u64_to_string(0), "0");
    assert_eq!(u64_to_string(1907), "1907");
    assert_eq!(u64_to_string(u64::MAX), u64::MAX.to_string());
    assert_eq!(i64_to_string(-42), "-42");
    assert_eq!(i64_to_string(i64::MAX), i64::MAX.to_string());
}

#[test]
fn device_numbers_split_into_major_and_minor() {
    assert_eq!(major_minor(0xd42), (0xd, 0x42));
    assert_eq!(major_minor(0), (0, 0));
}

#[test]
fn object_ids_and_modifiers() {
    assert_eq!(ObjectId::new(5).get_value(), 5);
    assert!(ObjectId::new(0).is_null());
    assert!(!display_id().is_null());
    assert_eq!(display_id().get_value(), 1);

    let mut mods = KeyMods::default();
    assert!(!mods.update(KeyMods::default()));
    assert!(mods.update(KeyMods::new(1, 0, 0, 1)));
    assert_eq!(mods, KeyMods::new(1, 0, 0, 1));
}

#[test]
fn transfers_list_mime_types_in_order() {
    let mut transfer = Transfer::new();
    transfer.add_mime_type("text/plain".to_string());
    transfer.add_mime_type("text/html".to_string());
    assert_eq!(transfer.get_mime_types(), &vec!["text/plain".to_string(), "text/html".to_string()]);
}

#[test]
fn milliseconds_count_within_a_minute() {
    assert_eq!(Milliseconds::from_clock(2, 345_000_000).get_value(), 2345);
    assert!(Milliseconds::now().get_value() < 61000);
}

#[test]
fn surfaces_and_identifiers() {
    let sid = SurfaceId::new(3);
    assert!(sid.is_valid());
    assert_eq!(sid.as_number(), 3);
    assert!(!SurfaceId::invalid().is_valid());
    let context = SurfaceContext::new(sid, Position::new(1, 2));
    let moved = context.moved(Vector::new(10, -2));
    assert_eq!(moved.pos, Position::new(11, 0));
    assert_eq!(moved.id, sid);
    let mut id = MemoryPoolId::initial();
    let first = id.increment();
    assert_eq!(MemoryPoolId::incremented(&first), id.increment());
    let area = Area::create(-5, 5, 10, 20);
    assert_eq!(area.rebased(), Area::create(0, 0, 10, 20));
    assert!(!area.is_zero());
    assert_eq!(area.calculate_center(), Position::new(0, 15));
    assert_eq!(Area::create(10, 10, 10, 10).calculate_center(), Position::new(15, 15));
    assert!(Area::create(5, 5, 0, 10).is_zero());
    assert!(!Area::create(5, 5, 3, 10).is_zero());
    assert!(Area::create(5, 5, 3, 0).is_zero());
    assert!(Area::create(0, 0, 10, 10).contains(&Position::new(9, 9)));
    assert!(!Area::create(0, 0, 10, 10).contains(&Position::new(10, 9)));
    assert_eq!(i64_to_string(i64::MIN), "-9223372036854775808");
    assert_eq!(SurfaceId::new(7).to_text(), "SID(7)");
    assert_eq!(SurfaceId::new(7).to_debug_text(), "SID(7)");
    assert_eq!(SurfaceId::invalid().to_text(), "<invalid>");
}

#[test]
fn subtracting_what_was_added_gives_the_position_back() {
    let p = Position::new(-7, 12);
    let q = Position::new(100, -50);
    assert_eq!(p.add(q).sub(q), p);
    assert_eq!(p.opposite().opposite(), p);
    assert_eq!(p.opposite(), Position::new(7, -12));
}

#[test]
fn major_and_minor_recombine_into_the_device_number() {
    for rdev in [0u64, 1, 255, 256, 0xd42, 0xffff_ffff_ff] {
        let (major, minor) = major_minor(rdev);
        assert_eq!(major as u64 * 256 + minor as u64, rdev);
    }
}

#[test]
fn settings_fall_back_to_defaults_and_old_logs_are_chosen() {
    assert_eq!(path_or_default(Some("/run/user/1".to_string()), "/tmp"), "/run/user/1");
    assert_eq!(path_or_default(None, "/tmp"), "/tmp");
    assert!(is_old_log(true, Some(10), 20));
    assert!(!is_old_log(true, Some(20), 20));
    assert!(is_old_log(true, None, 20));
    assert!(!is_old_log(false, None, 20));
}

#[test]
fn shading_language_is_judged_from_the_version_string() {
    assert_eq!(shading_lang_version("OpenGL ES GLSL ES 3.20"), GlslVersion::Glsl300);
    assert_eq!(shading_lang_version("OpenGL ES GLSL ES 1.00"), GlslVersion::Glsl100);
    assert_eq!(shading_lang_version("4.60 NVIDIA"), GlslVersion::Unknown);
    assert_eq!(shading_lang_version("ES 1.0 and ES 3.1"), GlslVersion::Glsl300);
}
