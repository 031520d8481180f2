use anymore::AnyDebug;
use anymore::AnyDebugSend;
use anymore::AnyDebugSendSync;

#[derive(Debug)]
struct SomeMessage(u32);

#[test]
fn any_debug_shared_correct_debug() {
    let val = SomeMessage(5);
    let val: &dyn AnyDebug = &val;
    let format_result = val.debug_string();
    assert!(format_result.contains("SomeMessage"));
    assert!(format_result.contains("5"));
}

#[test]
fn any_debug_excl_correct_debug() {
    let mut val = SomeMessage(6);
    let val: &mut dyn AnyDebug = &mut val;
    let format_result = val.debug_string();
    assert!(format_result.contains("SomeMessage"));
    assert!(format_result.contains("6"));
}

#[test]
fn any_debug_box_correct_debug() {
    let val = SomeMessage(7);
    let val: Box<dyn AnyDebug> = Box::new(val);
    let format_result = val.debug_string();
    assert!(format_result.contains("SomeMessage"));
    assert!(format_result.contains("7"));
}

#[test]
fn any_debug_normal_is() {
    let val = SomeMessage(10);
    let val: &dyn AnyDebug = &val;
    assert!(val.is::<SomeMessage>());
    assert!(!val.is::<u32>());
}

#[test]
fn any_debug_normal_downcast_ref() {
    let val = SomeMessage(11);
    let val: &dyn AnyDebug = &val;
    assert_eq!(val.downcast_ref::<SomeMessage>().unwrap().0, 11);
}

#[test]
fn any_debug_normal_downcast_mut() {
    let mut val = SomeMessage(12);
    let val_mut: &mut dyn AnyDebug = &mut val;
    val_mut.downcast_mut::<SomeMessage>().unwrap().0 = 13;
    assert!(val_mut.downcast_mut::<u32>().is_none());
    assert_eq!(val.0, 13);
}

#[test]
fn any_debug_normal_downcast() {
    let val = SomeMessage(14);
    let val: Box<dyn AnyDebug> = Box::new(val);
    let val = val.downcast::<u32>().unwrap_err();
    let val = val.downcast::<SomeMessage>().ok().unwrap();
    assert_eq!(val.0, 14);
}

#[test]
fn any_debug_send_is() {
    let val = SomeMessage(20);
    let val: &dyn AnyDebugSend = &val;
    assert!(val.is::<SomeMessage>());
    assert!(!val.is::<u32>());
}

#[test]
fn any_debug_send_downcast_ref() {
    let val = SomeMessage(21);
    let val: &dyn AnyDebugSend = &val;
    assert_eq!(val.downcast_ref::<SomeMessage>().unwrap().0, 21);
}

#[test]
fn any_debug_send_downcast_mut() {
    let mut val = SomeMessage(22);
    let val_mut: &mut dyn AnyDebugSend = &mut val;
    val_mut.downcast_mut::<SomeMessage>().unwrap().0 = 23;
    assert!(val_mut.downcast_mut::<u32>().is_none());
    assert_eq!(val.0, 23);
}

#[test]
fn any_debug_send_downcast() {
    let val = SomeMessage(24);
    let val: Box<dyn AnyDebugSend> = Box::new(val);
    let val = val.downcast::<u32>().unwrap_err();
    let val = val.downcast::<SomeMessage>().ok().unwrap();
    assert_eq!(val.0, 24);
}

#[test]
fn any_debug_send_sync_is() {
    let val = SomeMessage(30);
    let val: &dyn AnyDebugSendSync = &val;
    assert!(val.is::<SomeMessage>());
    assert!(!val.is::<u32>());
}

#[test]
fn any_debug_send_sync_downcast_ref() {
    let val = SomeMessage(31);
    let val: &dyn AnyDebugSendSync = &val;
    assert_eq!(val.downcast_ref::<SomeMessage>().unwrap().0, 31);
}

#[test]
fn any_debug_send_sync_downcast_mut() {
    let mut val = SomeMessage(32);
    let val_mut: &mut dyn AnyDebugSendSync = &mut val;
    val_mut.downcast_mut::<SomeMessage>().unwrap().0 = 33;
    assert!(val_mut.downcast_mut::<u32>().is_none());
    assert_eq!(val.0, 33);
}

#[test]
fn any_debug_send_sync_downcast() {
    let val = SomeMessage(34);
    let val: Box<dyn AnyDebugSendSync> = Box::new(val);
    let val = val.downcast::<u32>().unwrap_err();
    let val = val.downcast::<SomeMessage>().ok().unwrap();
    assert_eq!(val.0, 34);
}
