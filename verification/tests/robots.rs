use rusty_robot::robots::{F405Quadcopter, QuadCopterMotors};

struct Recorder {
    last: std::cell::Cell<[u8; 4]>,
}

impl QuadCopterMotors for Recorder {
    fn set_data(&self, velocities_pct: [u8; 4]) {
        self.last.set(velocities_pct);
    }
}

#[test]
fn motor_interface_carries_all_four_velocities() {
    let motors = Recorder {
        last: std::cell::Cell::new([0; 4]),
    };
    motors.set_data([51, 51, 51, 51]);
    assert_eq!(motors.last.get(), [51, 51, 51, 51]);
}

#[test]
fn board_handle_is_constructible() {
    let _board = F405Quadcopter::new();
}
