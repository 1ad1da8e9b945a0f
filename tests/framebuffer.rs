use framebuffer::{negotiate, FbError, FixScreeninfo, GeometryRequest, Region, SwapChain, VarScreeninfo};
use memmap2::MmapMut;

fn var(xres: u32, yres: u32, yres_virtual: u32, yoffset: u32) -> VarScreeninfo {
    VarScreeninfo { xres, yres, xres_virtual: xres, yres_virtual, yoffset, bits_per_pixel: 32 }
}

fn double_chain() -> SwapChain<Vec<u8>> {
    let fix = FixScreeninfo { smem_len: 1920 * 4 * 1080 * 2, line_length: 1920 * 4 };
    let n = negotiate(fix, var(1920, 1080, 1080, 0)).unwrap();
    SwapChain::new(n, vec![1u8], Some(vec![2u8]))
}

fn single_chain() -> SwapChain<Vec<u8>> {
    let fix = FixScreeninfo { smem_len: 1920 * 4 * 1080, line_length: 1920 * 4 };
    let n = negotiate(fix, var(1920, 1080, 1080, 0)).unwrap();
    SwapChain::new(n, vec![1u8], None)
}

#[test]
fn exactly_double_memory_gives_double_mode() {
    let fix = FixScreeninfo { smem_len: 1920 * 4 * 1080 * 2, line_length: 1920 * 4 };
    let n = negotiate(fix, var(1920, 1080, 1080, 7)).unwrap();
    assert!(n.double);
    assert_eq!(n.frame_len, 1920 * 4 * 1080);
    assert_eq!(n.request, GeometryRequest::SetVinfo);
    assert_eq!(n.vinfo.yres_virtual, 2160);
    assert_eq!(n.vinfo.yoffset, 0);
    assert_eq!(
        n.regions(),
        vec![
            Region { offset: 0, len: 1920 * 4 * 1080 },
            Region { offset: 1920 * 4 * 1080, len: 1920 * 4 * 1080 },
        ]
    );
    let mut c = SwapChain::new(n, vec![1u8], Some(vec![2u8]));
    assert_eq!(c.screen_size(), (1920, 1080));
    assert_eq!(c.color_depth(), 32);
    assert!(c.get_buff_data().is_some());
}

#[test]
fn sufficient_virtual_height_pans_instead_of_setting() {
    let fix = FixScreeninfo { smem_len: 1920 * 4 * 1080 * 3, line_length: 1920 * 4 };
    let n = negotiate(fix, var(1920, 1080, 2160, 1080)).unwrap();
    assert!(n.double);
    assert_eq!(n.request, GeometryRequest::PanDisplay);
    assert_eq!(n.vinfo.yres_virtual, 2160);
    assert_eq!(n.vinfo.yoffset, 0);
}

#[test]
fn single_frame_memory_gives_single_mode() {
    let fix = FixScreeninfo { smem_len: 1920 * 4 * 1080, line_length: 1920 * 4 };
    let v = var(1920, 1080, 1080, 0);
    let n = negotiate(fix, v).unwrap();
    assert!(!n.double);
    assert_eq!(n.request, GeometryRequest::Nothing);
    assert_eq!(n.vinfo, v);
    assert_eq!(n.regions(), vec![Region { offset: 0, len: 1920 * 4 * 1080 }]);
    let mut c = SwapChain::new(n, vec![1u8], None);
    assert!(c.get_buff_data().is_none());
    assert_eq!(c.pan_target(), None);
    assert!(c.swap(true).is_ok());
    assert!(c.swap(false).is_ok());
    assert_eq!(c.get_disp_data(), &vec![1u8]);
    assert_eq!(c.vinfo(), v);
}

#[test]
fn one_byte_short_of_two_frames_is_single() {
    let fix = FixScreeninfo { smem_len: 1920 * 4 * 1080 * 2 - 1, line_length: 1920 * 4 };
    let n = negotiate(fix, var(1920, 1080, 1080, 0)).unwrap();
    assert!(!n.double);
}

#[test]
fn largest_fields_do_not_overflow() {
    let fix = FixScreeninfo { smem_len: u32::MAX, line_length: u32::MAX };
    let n = negotiate(fix, var(1, u32::MAX, u32::MAX, 0)).unwrap();
    assert!(!n.double);
    assert_eq!(n.frame_len, u32::MAX as u64 * u32::MAX as u64);
}

#[test]
fn doubled_height_beyond_field_is_refused() {
    let fix = FixScreeninfo { smem_len: 16, line_length: 0 };
    let r = negotiate(fix, var(1, 0x8000_0000, 0x8000_0000, 0));
    assert!(matches!(r, Err(FbError::SetVinfo)));
}

#[test]
fn refused_requests_give_their_errors() {
    let fix = FixScreeninfo { smem_len: 800, line_length: 10 };
    let set = negotiate(fix, var(2, 40, 40, 0)).unwrap();
    assert!(matches!(set.confirm(false), Err(FbError::SetVinfo)));
    assert!(set.confirm(true).is_ok());
    let pan = negotiate(fix, var(2, 40, 80, 0)).unwrap();
    assert!(matches!(pan.confirm(false), Err(FbError::PanDisplay)));
    assert!(pan.confirm(true).is_ok());
    let single = negotiate(fix, var(2, 41, 41, 0)).unwrap();
    assert!(single.confirm(false).is_ok());
}

#[test]
fn swap_exchanges_roles_and_pans() {
    let mut c = double_chain();
    assert_eq!(c.pan_target().unwrap().yoffset, 1080);
    assert!(c.swap(true).is_ok());
    assert_eq!(c.vinfo().yoffset, 1080);
    assert_eq!(c.get_disp_data(), &vec![2u8]);
    assert_eq!(c.get_buff_data().unwrap(), &vec![1u8]);
    assert_eq!(c.pan_target().unwrap().yoffset, 0);
}

#[test]
fn swap_twice_restores_roles() {
    let mut c = double_chain();
    let before = c.vinfo();
    c.swap(true).unwrap();
    c.swap(true).unwrap();
    assert_eq!(c.vinfo(), before);
    assert_eq!(c.get_disp_data(), &vec![1u8]);
    assert_eq!(c.get_buff_data().unwrap(), &vec![2u8]);
}

#[test]
fn visible_and_back_stay_distinct() {
    let mut c = double_chain();
    for _ in 0..5 {
        c.swap(true).unwrap();
        let visible = c.get_disp_data().clone();
        let back = c.get_buff_data().unwrap().clone();
        assert_ne!(visible, back);
    }
}

#[test]
fn failed_pan_leaves_roles_unchanged() {
    let mut c = double_chain();
    let before = c.vinfo();
    assert!(matches!(c.swap(false), Err(FbError::PanDisplay)));
    assert_eq!(c.vinfo(), before);
    assert_eq!(c.get_disp_data(), &vec![1u8]);
    assert_eq!(c.get_buff_data().unwrap(), &vec![2u8]);
}

#[test]
fn geometry_stable_across_swaps() {
    let mut c = double_chain();
    for i in 0..7 {
        let _ = c.swap(i % 3 != 0);
        c.get_buff_data().unwrap().push(9);
        assert_eq!(c.screen_size(), (1920, 1080));
        assert_eq!(c.color_depth(), 32);
    }
    let mut s = single_chain();
    s.swap(true).unwrap();
    assert_eq!(s.screen_size(), (1920, 1080));
    assert_eq!(s.color_depth(), 32);
}

#[test]
fn writes_reach_the_surface() {
    let mut c = double_chain();
    c.get_buff_data().unwrap()[0] = 7;
    c.get_disp_data()[0] = 5;
    c.swap(true).unwrap();
    assert_eq!(c.get_disp_data(), &vec![7u8]);
    assert_eq!(c.get_buff_data().unwrap(), &vec![5u8]);
}

#[test]
fn io_error_converts() {
    let e = FbError::from(std::io::Error::from(std::io::ErrorKind::NotFound));
    match e {
        FbError::IoError(inner) => assert_eq!(inner.kind(), std::io::ErrorKind::NotFound),
        _ => panic!("expected an io error"),
    }
}

#[test]
fn memory_mappings_as_surfaces() {
    let fix = FixScreeninfo { smem_len: 64, line_length: 8 };
    let n = negotiate(fix, var(2, 4, 4, 0)).unwrap();
    let regions = n.regions();
    assert_eq!(regions.len(), 2);
    let front = MmapMut::map_anon(regions[0].len as usize).unwrap();
    let back = MmapMut::map_anon(regions[1].len as usize).unwrap();
    let mut c = SwapChain::new(n, front, Some(back));
    c.get_buff_data().unwrap()[3] = 42;
    assert_eq!(c.pan_target().unwrap().yoffset, 4);
    c.swap(true).unwrap();
    assert_eq!(c.get_disp_data()[3], 42);
    assert_eq!(c.get_disp_data().len(), 32);
    assert_eq!(c.get_buff_data().unwrap()[3], 0);
}
