use ayuz::relais::{syn_report, Ereignis, RelaisPuffer, EV_ABS, EV_KEY, EV_SYN, MAX_HELD_EVENTS, SYN_REPORT};

fn abs(code: u16, wert: i32) -> Ereignis {
    Ereignis { typ: EV_ABS, code, wert }
}

fn key(code: u16, wert: i32) -> Ereignis {
    Ereignis { typ: EV_KEY, code, wert }
}

#[test]
fn syn_report_ist_trenner() {
    assert_eq!(syn_report(), Ereignis { typ: EV_SYN, code: SYN_REPORT, wert: 0 });
    assert_eq!(syn_report(), Ereignis { typ: 0, code: 0, wert: 0 });
}

#[test]
fn leerer_frame_sendet_nichts() {
    let mut p = RelaisPuffer::new();
    assert_eq!(p.end_frame(), None);
    assert_eq!(p.commit(), None);
}

#[test]
fn nur_tasten_und_achsen_werden_weitergegeben() {
    let mut p = RelaisPuffer::new();
    p.commit();
    p.push(Ereignis { typ: 2, code: 0, wert: 5 }); // EV_REL
    p.push(Ereignis { typ: 4, code: 4, wert: 1 }); // EV_MSC
    assert_eq!(p.end_frame(), None);
    p.push(key(330, 1));
    p.push(Ereignis { typ: 4, code: 4, wert: 1 });
    p.push(abs(0, 100));
    assert_eq!(p.end_frame(), Some(vec![key(330, 1), abs(0, 100)]));
}

#[test]
fn wiedergabe_nach_commit() {
    let mut p = RelaisPuffer::new();
    p.push(key(330, 1));
    p.push(abs(0, 10));
    assert_eq!(p.end_frame(), None);
    p.push(abs(0, 11));
    assert_eq!(p.end_frame(), None);
    let replay = p.commit();
    assert_eq!(replay, Some(vec![key(330, 1), abs(0, 10), syn_report(), abs(0, 11)]));
    // later frames go out live
    p.push(abs(1, 20));
    assert_eq!(p.end_frame(), Some(vec![abs(1, 20)]));
    // a second commit replays nothing
    assert_eq!(p.commit(), None);
}

#[test]
fn reset_verwirft_zurueckgehaltenes() {
    let mut p = RelaisPuffer::new();
    p.push(key(330, 1));
    assert_eq!(p.end_frame(), None);
    p.push(abs(0, 3));
    p.reset();
    assert_eq!(p.end_frame(), None);
    assert_eq!(p.commit(), None);
}

#[test]
fn stau_ab_der_obergrenze() {
    let mut p = RelaisPuffer::new();
    // each frame of 7 events takes 8 places with its separator: 256 frames fill 2048 exactly
    for i in 0..256 {
        for j in 0..7 {
            p.push(abs(j, i));
        }
        assert_eq!(p.end_frame(), None);
    }
    p.push(abs(0, 999));
    assert_eq!(p.end_frame(), None);
    // the backlog outgrew the ceiling: nothing is replayed, frames keep being dropped
    p.push(abs(0, 1000));
    assert_eq!(p.end_frame(), None);
    assert_eq!(p.commit(), None);
    p.push(abs(0, 1));
    assert_eq!(p.end_frame(), Some(vec![abs(0, 1)]));
    assert_eq!(MAX_HELD_EVENTS, 2048);
}

#[test]
fn genau_an_der_obergrenze_wird_wiedergegeben() {
    let mut p = RelaisPuffer::new();
    for i in 0..256 {
        for j in 0..7 {
            p.push(abs(j, i));
        }
        p.end_frame();
    }
    let replay = p.commit().expect("backlog of exactly the ceiling is replayed");
    assert_eq!(replay.len(), 2047);
    assert_eq!(replay[7], syn_report());
    assert_eq!(replay[2046], abs(6, 255));
}

#[test]
fn commit_laesst_nichts_zurueck() {
    let mut p = RelaisPuffer::new();
    p.push(abs(0, 1));
    p.end_frame();
    assert_eq!(p.zurueckgehalten(), 2);
    p.commit();
    assert_eq!(p.zurueckgehalten(), 0);
    p.reset();
    assert_eq!(p.zurueckgehalten(), 0);
}
