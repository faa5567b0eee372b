use allegro::bitmap::{new_bitmap_ref, Bitmap};
use allegro::display::{Display, DisplayCall, DisplayOptions};
use allegro::native::NativeCall;

/// A stand-in for the native library: it hands out handles, keeps the render
/// target slot, and records what was released.
struct Native {
    next: usize,
    dummy: usize,
    target: usize,
    live: Vec<usize>,
    parents: Vec<(usize, usize)>,
    released: Vec<usize>,
    displays_released: Vec<usize>,
}

impl Native {
    fn init() -> Native {
        Native {
            next: 0x2000,
            dummy: 0x1000,
            target: 0x1000,
            live: vec![0x1000],
            parents: Vec::new(),
            released: Vec::new(),
            displays_released: Vec::new(),
        }
    }

    fn create(&mut self) -> usize {
        let h = self.next;
        self.next += 0x10;
        self.live.push(h);
        h
    }

    fn create_sub(&mut self, of: usize) -> usize {
        let owner = self.parent_of(of);
        let owner = if owner == 0 { of } else { owner };
        let h = self.create();
        self.parents.push((h, owner));
        h
    }

    fn parent_of(&self, h: usize) -> usize {
        self.parents.iter().find(|p| p.0 == h).map(|p| p.1).unwrap_or(0)
    }

    fn target_parent(&self) -> usize {
        self.parent_of(self.target)
    }

    fn is_live(&self, h: usize) -> bool {
        self.live.contains(&h)
    }

    fn draw(&self) {
        assert!(self.is_live(self.target), "drawing into a released surface");
        let p = self.target_parent();
        assert!(p == 0 || self.is_live(p), "drawing into a view of a released surface");
    }

    fn run(&mut self, calls: Vec<NativeCall>) {
        for call in calls {
            match call {
                NativeCall::SetTargetToDummy => self.target = self.dummy,
                NativeCall::DestroyBitmap { bitmap } => {
                    assert!(self.is_live(bitmap), "double release");
                    self.live.retain(|h| *h != bitmap);
                    self.parents.retain(|p| p.0 != bitmap);
                    self.released.push(bitmap);
                }
            }
        }
    }

    fn run_display(&mut self, calls: Vec<DisplayCall>) {
        for call in calls {
            if let DisplayCall::DestroyDisplay { display } = call {
                self.displays_released.push(display);
            }
        }
    }
}

#[test]
fn sub_view_destruction_resets_the_target_only_when_it_is_the_target() {
    let mut n = Native::init();
    let s = Bitmap::new(n.create()).unwrap();
    n.target = s.get_bitmap();
    let v = s.create_sub_bitmap(n.create_sub(s.get_bitmap())).unwrap();
    let calls = v.destroy(n.target, n.target_parent());
    n.run(calls);
    assert_eq!(n.target, s.get_bitmap());
    n.draw();

    let v = s.create_sub_bitmap(n.create_sub(s.get_bitmap())).unwrap();
    n.target = v.get_bitmap();
    let calls = v.destroy(n.target, n.target_parent());
    n.run(calls);
    assert_eq!(n.target, n.dummy);
    n.draw();
    assert!(n.is_live(s.get_bitmap()));
}

#[test]
fn destroying_the_target_leaves_the_placeholder() {
    let mut n = Native::init();
    let s = Bitmap::new(n.create()).unwrap();
    let h = s.get_bitmap();
    n.target = h;
    let calls = s.destroy(n.target, n.target_parent());
    assert_eq!(calls[0], NativeCall::SetTargetToDummy);
    n.run(calls);
    assert_eq!(n.target, n.dummy);
    assert!(!n.is_live(h));
    n.draw();
}

#[test]
fn destroying_the_owner_of_the_target_leaves_the_placeholder() {
    let mut n = Native::init();
    let s = n.create();
    let v = n.create_sub(s);
    n.target = v;
    let owner = Bitmap::new(s).unwrap();
    let calls = owner.destroy(n.target, n.target_parent());
    n.run(calls);
    assert_eq!(n.target, n.dummy);
    n.draw();
}

#[test]
fn owner_survives_the_destruction_of_all_its_sub_views() {
    let mut n = Native::init();
    let s = Bitmap::new(n.create()).unwrap();
    n.target = s.get_bitmap();
    let mut views = Vec::new();
    for _ in 0..5 {
        views.push(s.create_sub_bitmap(n.create_sub(s.get_bitmap())).unwrap());
    }
    let nested = views[2].create_sub_bitmap(n.create_sub(views[2].get_bitmap())).unwrap();
    assert_eq!(n.parent_of(nested.get_bitmap()), s.get_bitmap());
    views.push(nested);
    for v in views {
        let calls = v.destroy(n.target, n.target_parent());
        n.run(calls);
    }
    assert_eq!(n.released.len(), 6);
    assert!(n.is_live(s.get_bitmap()));
    assert_eq!(n.target, s.get_bitmap());
    assert_eq!(s.get_bitmap(), 0x2000);
    n.draw();
}

#[test]
fn destroying_a_copy_leaves_its_source() {
    let mut n = Native::init();
    let a = Bitmap::new(n.create()).unwrap();
    n.target = a.get_bitmap();
    let b = a.maybe_clone(n.create()).unwrap();
    assert_ne!(a.get_bitmap(), b.get_bitmap());
    let calls = b.destroy(n.target, n.target_parent());
    n.run(calls);
    assert!(n.is_live(a.get_bitmap()));
    assert_eq!(n.target, a.get_bitmap());
    n.draw();
}

#[test]
fn failed_lock_neither_leaks_nor_releases_twice() {
    let mut n = Native::init();
    let b = Bitmap::new(n.create()).unwrap();
    let h = b.get_bitmap();
    let back = b.into_memory_bitmap(false).unwrap_err();
    assert!(n.released.is_empty());
    let calls = back.destroy(n.target, n.target_parent());
    n.run(calls);
    assert_eq!(n.released, vec![h]);
}

#[test]
fn locked_surface_is_released_once() {
    let mut n = Native::init();
    let b = Bitmap::new(n.create()).unwrap();
    let h = b.get_bitmap();
    let m = b.into_memory_bitmap(true).unwrap();
    let u = m.into_bitmap();
    let m = u.into_memory_bitmap(true).unwrap();
    let calls = m.destroy(n.target, n.target_parent());
    n.run(calls);
    assert_eq!(n.released, vec![h]);
}

#[test]
fn display_destruction_does_not_release_the_backbuffer() {
    let mut n = Native::init();
    let setup = Display::new_with_options(640, 480, &DisplayOptions::new());
    assert_eq!(setup.last(), Some(&DisplayCall::CreateDisplay { w: 640, h: 480 }));
    n.run_display(setup);
    let backbuffer = n.create();
    let d = Display::new(0xd000, backbuffer).unwrap();
    n.target = d.get_backbuffer().get_bitmap();
    n.draw();
    let backbuffer_calls = new_bitmap_ref(backbuffer).destroy(n.target, n.target_parent());
    assert!(backbuffer_calls.is_empty());
    n.run(backbuffer_calls);
    let calls = d.destroy();
    assert_eq!(calls, vec![DisplayCall::DestroyDisplay { display: 0xd000 }]);
    n.run_display(calls);
    assert_eq!(n.displays_released, vec![0xd000]);
    assert!(n.released.is_empty());
    assert!(n.is_live(backbuffer));
}
