use vstd::prelude::*;

verus! {

/// A student's marks and the grade they earn.
pub struct Student {
    pub name: String,
    pub marks: u8,
    pub grade: char,
}

/// The grade for `marks`: C up to 60, B up to 80, A above.
pub open spec fn grade_for(marks: u8) -> char {
    if marks <= 60 {
        'C'
    } else if marks <= 80 {
        'B'
    } else {
        'A'
    }
}

impl Student {
    /// A student not graded yet: grade 'X'.
    pub fn new(name: &str, marks: u8) -> (r: Student)
        ensures
            r.name@ == name@,
            r.marks == marks,
            r.grade == 'X',
    {
        Student { name: String::from_str(name), marks, grade: 'X' }
    }
}

/// Sets the grade that the student's marks earn.
pub fn set_student_grade(student: &mut Student)
    ensures
        final(student).grade == grade_for(old(student).marks),
        final(student).marks == old(student).marks,
        final(student).name == old(student).name,
{
    if student.marks <= 60 {
        student.grade = 'C';
    } else if student.marks <= 80 {
        student.grade = 'B';
    } else {
        student.grade = 'A';
    }
}

} // verus!
