use pegasus::conduit::ChannelClosed;
use pegasus::draw::{DrawSystem, Painter};
use pegasus::ring::Ring;

struct Lines {
    background: &'static str,
    calls: u32,
}

impl Painter<Vec<String>> for Lines {
    type Visual = u32;

    fn draw(&mut self, visuals: &[&u32], target: &mut Vec<String>) {
        self.calls += 1;
        target.clear();
        target.push(self.background.to_string());
        for visual in visuals {
            target.push(format!("draw {}", visual));
        }
    }
}

#[test]
fn draw_step_clears_the_buffer_and_records_one_draw_per_visual() {
    let mut ring = Ring::new(vec![vec![String::from("stale")], Vec::new()]);
    let mut stage = DrawSystem::new(Lines { background: "clear", calls: 0 });
    let acquired = match ring.recv_free() {
        Ok(Some(buffer)) => Ok(buffer),
        _ => panic!("no buffer was handed out"),
    };
    let (a, b) = (4u32, 2u32);
    let filled = stage.run(acquired, &[&a, &b]).unwrap();
    assert_eq!(filled.tag(), 0);
    assert_eq!(*filled.contents(), ["clear", "draw 4", "draw 2"]);
    assert_eq!(stage.painter().calls, 1);
    assert!(ring.send_ready(filled).is_ok());
    assert_eq!(ring.ready_len(), 1);
}

#[test]
fn draw_step_without_visuals_still_clears_the_buffer() {
    let mut ring = Ring::new(vec![vec![String::from("stale")]]);
    let mut stage = DrawSystem::new(Lines { background: "clear", calls: 0 });
    let acquired = match ring.recv_free() {
        Ok(Some(buffer)) => Ok(buffer),
        _ => panic!("no buffer was handed out"),
    };
    let filled = stage.run(acquired, &[]).unwrap();
    assert_eq!(*filled.contents(), ["clear"]);
}

#[test]
fn draw_step_gives_up_silently_when_the_conduit_is_closed() {
    let mut stage = DrawSystem::new(Lines { background: "clear", calls: 0 });
    let value = 1u32;
    let filled = stage.run::<Vec<String>>(Err(ChannelClosed), &[&value]);
    assert!(filled.is_none());
    assert_eq!(stage.painter().calls, 0);
}
