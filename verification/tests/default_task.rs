use rusqlite::Connection;
use taskdb::task::Task;

#[test]
fn create_task() {
    let conn = Connection::open_in_memory().unwrap();
    let new_task = Task::default();
    let res = conn.execute(
        "INSERT INTO task (task, time, subject) VALUES (?1, ?2, ?3)",
        [
            &new_task.task.unwrap(),
            &new_task.time.unwrap(),
            &new_task.subject.unwrap(),
        ],
    );
    println!("{:?}", res);
}
