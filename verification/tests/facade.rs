use log4::DefaultLogImpl;
use log4::Log4;

#[test]
fn test_log() {
    let mut log = Log4::new();
    let aaa: String = String::from("AAA");
    let bbb: &String = &String::from("BBB");
    log.add_tag(aaa);
    log.add_tag(bbb);
    log.info("CCC");
    log.info(String::from("DDD"));
    log.info(bbb);

    let mut log2 = log.fork();
    log2.add_tag("fork1");
    log2.info("EEE");
    log2.warn("GGG");
    log2.error("HHH");

    log.info("III");
    log.warn("JJJ");
    log.error("KKK");

    let mut log3 = log2.fork();
    log3.info("log enabled");
    log3.enable = false;
    log3.info("this log shall not appear");
    log3.enable = true;
    log3.info("log enabled again");
}

#[test]
fn test_delete() {
    let mut log = Log4::new();
    log.set_log_impl(Box::new(DefaultLogImpl {}));
    log.info("test delegate");
}

#[test]
fn test_static() {
    let mylog = Log4::new();
    let mylog22 = mylog.fork();

    mylog.info("static info");
    mylog.warn("static warn");
    mylog.error("static error");

    let log2 = mylog.fork();
    log2.info("fork static info");

    mylog22.info("static fork info");
}
