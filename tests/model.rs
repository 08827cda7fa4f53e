use gm_rekinect::api::motion_sensor_pos;
use gm_rekinect::backend::{backend_candidates, Platform};
use gm_rekinect::coords::{host_joint, Vector3, Vector4, SIGN_BIT};
use gm_rekinect::cusercmd::{ExtendedBonesMessage, ExtendedBonesSync};
use gm_rekinect::hax::GmodLuaInterfaceRealm;
use gm_rekinect::kinect_v1::{KinectV1Skeleton, KinectV1SkeletonUpdate, SkeletonTrackingState};
use gm_rekinect::record::{
    read_bones, read_joint, read_u32, write_bones, write_joint, write_u32, MMAP_FILE_SIZE,
    MMAP_SKELETON_BONES,
};
use gm_rekinect::rekinect::InitRefCount;
use gm_rekinect::rekinector::{module_file_name, Gmod};
use gm_rekinect::skeleton::{
    Joint, KinectExtendedSkeletonBones, KinectSkeleton, KinectTrackedExtendedSkeleton,
    KinectTrackedSkeleton,
};
use gm_rekinect::tracking::{LockStep, SkeletonLock};
use gm_rekinect::winsdk_v1::{self, WinSdkKinectV1Skeleton, WinSdkKinectV1SkeletonUpdate};
use gm_rekinect::winsdk_v2::{self, SensorBones, WinSdkKinectV2SkeletonUpdate};

fn joint(x: f32, y: f32, z: f32) -> Joint {
    Joint { x: x.to_bits(), y: y.to_bits(), z: z.to_bits() }
}

fn v3(x: f32, y: f32, z: f32) -> Vector3 {
    Vector3 { x: x.to_bits(), y: y.to_bits(), z: z.to_bits() }
}

fn v4(x: f32, y: f32, z: f32) -> Vector4 {
    Vector4 { x: x.to_bits(), y: y.to_bits(), z: z.to_bits(), w: 1.0f32.to_bits() }
}

fn numbered(base: f32) -> [Joint; 20] {
    let mut b = [Joint::origin(); 20];
    for (i, j) in b.iter_mut().enumerate() {
        *j = joint(base + i as f32, 0.5, -1.5);
    }
    b
}

#[test]
fn conversion_swaps_and_negates() {
    assert_eq!(winsdk_v1::convert_kinect_coordinate_space_to_gmod(&v4(1.0, 2.0, 3.0)), joint(-1.0, 3.0, 2.0));
    assert_eq!(winsdk_v2::convert_kinect_coordinate_space_to_gmod(v3(1.0, 2.0, 3.0)), joint(-1.0, 3.0, 2.0));
    assert_eq!(v3(-4.5, 0.0, 8.0).into_gmod(), joint(4.5, 8.0, 0.0));
    assert_eq!(host_joint(0, 1, 2).x, SIGN_BIT);
}

#[test]
fn v1_conversion_applies_to_every_joint() {
    let mut raw = [v4(0.0, 0.0, 0.0); 20];
    for (i, v) in raw.iter_mut().enumerate() {
        *v = v4(1.0, 2.0 + i as f32, 3.0);
    }
    let s = winsdk_v1::convert_skeleton(&WinSdkKinectV1Skeleton { raw });
    for (i, j) in s.raw_bones().iter().enumerate() {
        assert_eq!(*j, joint(-1.0, 3.0, 2.0 + i as f32));
    }
}

#[test]
fn v2_conversion_with_midpoints() {
    let mut raw = [v3(1.0, 2.0, 3.0); 25];
    raw[12] = v3(0.0, 0.0, 0.0);
    raw[16] = v3(2.0, 0.0, 0.0);
    raw[4] = v3(0.0, 4.0, 0.0);
    raw[8] = v3(2.0, 4.0, 0.0);
    raw[0] = v3(7.0, 0.0, 0.0);
    raw[24] = v3(0.0, 0.0, 9.0);
    let hip = v3((0.0f32 + 2.0) / 2.0, 0.0, 0.0);
    let shoulder = v3((0.0f32 + 2.0) / 2.0, 4.0, 0.0);
    let frame = winsdk_v2::convert_skeleton(&SensorBones { raw }, hip, shoulder);
    match frame {
        KinectSkeleton::TrackedExtended(base, ext) => {
            let b = base.bones();
            assert_eq!(b.hip_center, joint(-1.0, 0.0, 0.0));
            assert_eq!(b.shoulder_center, joint(-1.0, 0.0, 4.0));
            assert_eq!(b.spine, joint(-1.0, 3.0, 2.0));
            assert_eq!(b.hip_left, joint(-0.0, 0.0, 0.0));
            assert_eq!(b.hip_right, joint(-2.0, 0.0, 0.0));
            let e = ext.bones();
            assert_eq!(e.spine_base, joint(-7.0, 0.0, 0.0));
            assert_eq!(e.thumb_right, joint(-0.0, 9.0, 0.0));
            assert_eq!(e.neck, joint(-1.0, 3.0, 2.0));
        }
        _ => panic!("expected an extended frame"),
    }
}

#[test]
fn named_and_positional_bones_agree() {
    let raw = numbered(0.0);
    let s = KinectTrackedSkeleton::from_raw_bones(raw);
    let b = s.bones();
    assert_eq!(b.hip_center, raw[0]);
    assert_eq!(b.spine, raw[1]);
    assert_eq!(b.shoulder_center, raw[2]);
    assert_eq!(b.head, raw[3]);
    assert_eq!(b.hand_left, raw[7]);
    assert_eq!(b.hand_right, raw[11]);
    assert_eq!(b.hip_left, raw[12]);
    assert_eq!(b.foot_right, raw[19]);
    let back = KinectTrackedSkeleton::from_named_bones(b);
    assert_eq!(*back.raw_bones(), raw);

    let ext = KinectTrackedExtendedSkeleton::from_named_bones(KinectExtendedSkeletonBones {
        spine_base: joint(0.0, 0.0, 0.0),
        neck: joint(1.0, 0.0, 0.0),
        spine_shoulder: joint(2.0, 0.0, 0.0),
        hand_tip_left: joint(3.0, 0.0, 0.0),
        thumb_left: joint(4.0, 0.0, 0.0),
        hand_tip_right: joint(5.0, 0.0, 0.0),
        thumb_right: joint(6.0, 0.0, 0.0),
    });
    for (i, j) in ext.raw_bones().iter().enumerate() {
        assert_eq!(*j, joint(i as f32, 0.0, 0.0));
    }
    assert_eq!(KinectTrackedExtendedSkeleton::from_raw_bones(*ext.raw_bones()).bones().thumb_left, joint(4.0, 0.0, 0.0));
}

#[test]
fn defaults_are_untracked_and_zero() {
    assert!(matches!(KinectSkeleton::default(), KinectSkeleton::Untracked));
    assert_eq!(*KinectTrackedSkeleton::default().raw_bones(), [joint(0.0, 0.0, 0.0); 20]);
    assert_eq!(*KinectTrackedExtendedSkeleton::default().raw_bones(), [joint(0.0, 0.0, 0.0); 7]);
}

#[test]
fn lost_body_is_reported_once() {
    let mut backend = winsdk_v1::WinSdkKinectBackend::new();
    let followed = WinSdkKinectV1SkeletonUpdate {
        skeleton_index: 2,
        skeleton: Some(WinSdkKinectV1Skeleton { raw: [v4(1.0, 2.0, 3.0); 20] }),
    };
    let lost = |i: usize| WinSdkKinectV1SkeletonUpdate { skeleton_index: i, skeleton: None };
    assert!(matches!(backend.poll_event(&followed), Some(KinectSkeleton::TrackedBody(_))));
    assert!(backend.poll_event(&lost(0)).is_none());
    assert!(matches!(backend.poll_event(&lost(2)), Some(KinectSkeleton::Untracked)));
    assert!(backend.poll_event(&lost(2)).is_none());
    assert!(backend.poll_event(&lost(1)).is_none());
    assert!(backend.poll_event(&lost(2)).is_none());
    assert_eq!(backend.lock.skeleton, None);
}

#[test]
fn lock_ignores_other_bodies() {
    let mut lock = SkeletonLock::new();
    assert_eq!(lock.step(1, true), LockStep::Emit);
    assert_eq!(lock.step(3, true), LockStep::Ignore);
    assert_eq!(lock.skeleton, Some(1));
    assert_eq!(lock.step(1, false), LockStep::Lost);
    assert_eq!(lock.step(3, true), LockStep::Emit);
    assert_eq!(lock.skeleton, Some(3));
}

#[test]
fn v2_backend_reports_extended_frames() {
    let mut backend = winsdk_v2::WinSdkKinectBackend::new();
    let event = WinSdkKinectV2SkeletonUpdate {
        skeleton_index: 0,
        skeleton: Some(SensorBones { raw: [v3(1.0, 2.0, 3.0); 25] }),
    };
    let mid = v3(1.0, 2.0, 3.0);
    assert!(event.skeleton().is_some());
    assert!(matches!(backend.poll_event(&event, mid, mid), Some(KinectSkeleton::TrackedExtended(..))));
    let gone = WinSdkKinectV2SkeletonUpdate { skeleton_index: 0, skeleton: None };
    assert!(gone.skeleton().is_none());
    assert!(matches!(backend.poll_event(&gone, mid, mid), Some(KinectSkeleton::Untracked)));
    assert!(backend.poll_event(&gone, mid, mid).is_none());
}

#[test]
fn record_round_trips_in_both_orders() {
    for little in [true, false] {
        let mut mem = vec![0u8; MMAP_FILE_SIZE];
        write_u32(&mut mem, 9, 0x0102_0304, little);
        assert_eq!(read_u32(&mem, 9, little), 0x0102_0304);
        let j = joint(1.5, -2.25, 1e9);
        write_joint(&mut mem, 40, j, little);
        assert_eq!(read_joint(&mem, 40, little), j);
        let bones = numbered(3.0);
        write_bones(&mut mem, &bones, little);
        assert_eq!(read_bones(&mem, little), bones);
    }
    let mut mem = vec![0u8; MMAP_FILE_SIZE];
    write_u32(&mut mem, 0, 0x0102_0304, true);
    assert_eq!(&mem[0..4], &[4, 3, 2, 1]);
    write_u32(&mut mem, 0, 0x0102_0304, false);
    assert_eq!(&mem[0..4], &[1, 2, 3, 4]);
}

#[test]
fn bones_are_stored_as_native_floats() {
    let little = u16::from_ne_bytes([1, 0]) == 1;
    let mut mem = vec![0u8; MMAP_FILE_SIZE];
    let bones = numbered(1.0);
    write_bones(&mut mem, &bones, little);
    let x = f32::from_ne_bytes(mem[MMAP_SKELETON_BONES..MMAP_SKELETON_BONES + 4].try_into().unwrap());
    assert_eq!(x, 1.0);
    let z = f32::from_ne_bytes(mem[MMAP_SKELETON_BONES + 20..MMAP_SKELETON_BONES + 24].try_into().unwrap());
    assert_eq!(z, -1.5);
}

#[test]
fn joint_query_covers_base_and_extended() {
    let base = KinectTrackedSkeleton::from_raw_bones(numbered(0.0));
    let mut ext_raw = [Joint::origin(); 7];
    for (i, j) in ext_raw.iter_mut().enumerate() {
        *j = joint(100.0 + i as f32, 0.0, 0.0);
    }
    let ext = KinectTrackedExtendedSkeleton::from_raw_bones(ext_raw);
    let full = KinectSkeleton::TrackedExtended(base, ext);
    let plain = KinectSkeleton::TrackedBody(base);
    assert_eq!(motion_sensor_pos(true, &full, 0), Some(joint(0.0, 0.5, -1.5)));
    assert_eq!(motion_sensor_pos(true, &full, 19), Some(joint(19.0, 0.5, -1.5)));
    assert_eq!(motion_sensor_pos(true, &full, 20), Some(joint(100.0, 0.0, 0.0)));
    assert_eq!(motion_sensor_pos(true, &full, 26), Some(joint(106.0, 0.0, 0.0)));
    assert_eq!(motion_sensor_pos(true, &full, 27), None);
    assert_eq!(motion_sensor_pos(true, &full, -1), None);
    assert_eq!(motion_sensor_pos(false, &full, 0), None);
    assert_eq!(motion_sensor_pos(true, &plain, 20), None);
    assert_eq!(motion_sensor_pos(true, &KinectSkeleton::Untracked, 0), None);
}

#[test]
fn commands_carry_extended_bones_then_one_clear() {
    let base = KinectTrackedSkeleton::from_raw_bones(numbered(0.0));
    let ext = KinectTrackedExtendedSkeleton::from_raw_bones([joint(1.0, 1.0, 1.0); 7]);
    let full = KinectSkeleton::TrackedExtended(base, ext);
    let mut sync = ExtendedBonesSync::new();

    let r = sync.start_command(5, true, &full);
    assert_eq!(r.positions, numbered(0.0));
    assert!(r.message.is_none());

    sync.extended_bones_supported(true);
    let r = sync.start_command(0, true, &full);
    assert!(r.message.is_none());
    let r = sync.start_command(6, true, &full);
    match r.message {
        Some(ExtendedBonesMessage::Bones { cmd_number, bones }) => {
            assert_eq!(cmd_number, 6);
            assert_eq!(bones, [joint(1.0, 1.0, 1.0); 7]);
        }
        _ => panic!("expected extended bones"),
    }
    assert!(!sync.extended_bones_cleared);

    let r = sync.start_command(7, true, &KinectSkeleton::Untracked);
    assert_eq!(r.positions, [Joint::origin(); 20]);
    assert!(matches!(r.message, Some(ExtendedBonesMessage::Cleared { cmd_number: 7 })));
    let r = sync.start_command(8, true, &KinectSkeleton::Untracked);
    assert!(r.message.is_none());
    let r = sync.start_command(9, true, &KinectSkeleton::TrackedBody(base));
    assert_eq!(r.positions, numbered(0.0));
    assert!(r.message.is_none());
}

#[test]
fn refcount_creates_once_and_drops_at_zero() {
    let mut rc = InitRefCount::new();
    assert!(!rc.already_initialized());
    assert!(rc.init());
    assert!(!rc.init());
    assert!(rc.already_initialized());
    assert!(!rc.shutdown());
    assert!(rc.shutdown());
    assert!(!rc.already_initialized());
    assert!(rc.shutdown());
}

#[test]
fn v1_event_by_tracking_state() {
    let mut u = KinectV1SkeletonUpdate {
        skeleton_index: 0,
        state: SkeletonTrackingState::NotTracked,
        position: v4(1.0, 2.0, 3.0),
        bones: [v4(0.0, 1.0, 0.0); 20],
    };
    assert!(u.pos().is_none());
    u.state = SkeletonTrackingState::PositionOnly;
    match u.pos() {
        Some(KinectV1Skeleton::PositionOnly(p)) => assert_eq!(*p.pos(), v4(1.0, 2.0, 3.0)),
        _ => panic!("expected a position"),
    }
    u.state = SkeletonTrackingState::FullyTracked;
    match u.pos() {
        Some(KinectV1Skeleton::FullyTracked(t)) => {
            assert_eq!(*t.pos(), v4(1.0, 2.0, 3.0));
            assert_eq!(t.raw_bones()[19], v4(0.0, 1.0, 0.0));
        }
        _ => panic!("expected a tracked body"),
    }
}

#[test]
fn backend_search_order() {
    let c = backend_candidates(Platform::Windows64);
    assert_eq!(c, vec![
        ["garrysmod/lua/bin/rekinect_winsdk_v2_win64.dll", "rekinect_winsdk_v2_win64.dll"],
        ["garrysmod/lua/bin/rekinect_winsdk_v1_win64.dll", "rekinect_winsdk_v1_win64.dll"],
    ]);
    assert_eq!(backend_candidates(Platform::Windows32)[1][1], "rekinect_winsdk_v1_win32.dll");
    assert!(backend_candidates(Platform::Other).is_empty());
}

#[test]
fn injector_names() {
    assert_eq!(module_file_name(true), "gmcl_rekinect_win32.dll");
    assert_eq!(module_file_name(false), "gmcl_rekinect_win64.dll");
    let g = Gmod::new((), Some(42), "C:/gmod".to_string(), "C:/gmod/garrysmod/lua/bin/m.dll".to_string());
    assert_eq!(g.pid(), Some(42));
    assert_eq!(g.gmod_dir(), "C:/gmod");
    assert_eq!(g.gmcl_rekinect(), "C:/gmod/garrysmod/lua/bin/m.dll");
    assert_eq!(Gmod::new((), None, String::new(), String::new()).pid(), None);
    assert_ne!(GmodLuaInterfaceRealm::Client, GmodLuaInterfaceRealm::Server);
}
