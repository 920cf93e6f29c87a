//! The class table the interpreter resolves classes in, and the text form
//! in which the built-in classes are described.
//!
//! A class is described on one line:
//! `name[,super]|interfaces|field:descriptor,...|method(descriptor),...`
//! with commas between the words of a section. Registering a class
//! replaces the class of the same name, or adds it at the end.

use vstd::prelude::*;
use crate::descriptors::sub_chars;
use crate::model::{fields_view, Field, Value};
use crate::paths::views;

verus! {

/// The position of the last `c` in `s`, or -1.
pub open spec fn last_of(s: Seq<char>, c: char) -> int
    decreases s.len(),
{
    if s.len() == 0 {
        -1
    } else if s.last() == c {
        s.len() - 1
    } else {
        last_of(s.drop_last(), c)
    }
}

pub proof fn lemma_last_of(s: Seq<char>, c: char)
    ensures
        -1 <= last_of(s, c) < s.len(),
        last_of(s, c) >= 0 ==> s[last_of(s, c)] == c,
    decreases s.len(),
{
    if s.len() > 0 && s.last() != c {
        lemma_last_of(s.drop_last(), c);
    }
}

/// The pieces of `s` between the occurrences of `c` (one piece when there
/// is none).
pub open spec fn pieces(s: Seq<char>, c: char) -> Seq<Seq<char>>
    decreases s.len(),
{
    let j = last_of(s, c);
    if j < 0 {
        seq![s]
    } else {
        proof {
            lemma_last_of(s, c);
        }
        pieces(s.subrange(0, j), c).push(s.subrange(j + 1, s.len() as int))
    }
}

/// The comma-separated words of a section; none in an empty one.
pub open spec fn words(s: Seq<char>) -> Seq<Seq<char>> {
    if s.len() == 0 { seq![] } else { pieces(s, ',') }
}

/// The position of the first `c` in `s`, or -1.
pub open spec fn first_of(s: Seq<char>, c: char) -> int
    decreases s.len(),
{
    if s.len() == 0 {
        -1
    } else if s[0] == c {
        0
    } else if first_of(s.drop_first(), c) < 0 {
        -1
    } else {
        first_of(s.drop_first(), c) + 1
    }
}

pub proof fn lemma_first_of(s: Seq<char>, c: char)
    ensures
        -1 <= first_of(s, c) < s.len(),
    decreases s.len(),
{
    if s.len() > 0 && s[0] != c {
        lemma_first_of(s.drop_first(), c);
    }
}

/// A method word: the name, then the descriptor from its `(` on.
pub open spec fn method_of(w: Seq<char>) -> (Seq<char>, Seq<char>) {
    let k = first_of(w, '(');
    if k < 0 { (w, seq![]) } else { (w.subrange(0, k), w.subrange(k, w.len() as int)) }
}

/// A field word: the name and the descriptor either side of the first `:`.
pub open spec fn field_of(w: Seq<char>) -> (Seq<char>, Seq<char>) {
    let k = first_of(w, ':');
    if k < 0 { (w, seq![]) } else { (w.subrange(0, k), w.subrange(k + 1, w.len() as int)) }
}

/// A class as the table holds it.
pub struct ClassSpec {
    pub name: Seq<char>,
    pub super_class: Option<Seq<char>>,
    pub interfaces: Seq<Seq<char>>,
    pub instance_fields: Seq<(Seq<char>, Seq<char>)>,
    pub methods: Seq<(Seq<char>, Seq<char>)>,
    pub static_fields: Seq<(Seq<char>, Value)>,
}

/// Section `i` of a line, empty when the line has fewer.
pub open spec fn section(secs: Seq<Seq<char>>, i: int) -> Seq<char> {
    if 0 <= i < secs.len() { secs[i] } else { seq![] }
}

/// The class a line describes (with no static fields).
pub open spec fn parse_class(line: Seq<char>) -> ClassSpec {
    let secs = pieces(line, '|');
    let head = words(section(secs, 0));
    ClassSpec {
        name: if head.len() > 0 { head[0] } else { seq![] },
        super_class: if head.len() > 1 { Some(head[1]) } else { None },
        interfaces: words(section(secs, 1)),
        instance_fields: words(section(secs, 2)).map_values(|w: Seq<char>| field_of(w)),
        methods: words(section(secs, 3)).map_values(|w: Seq<char>| method_of(w)),
        static_fields: seq![],
    }
}

/// The classes a text describes, one per line.
pub open spec fn parse_classes(text: Seq<char>) -> Seq<ClassSpec> {
    pieces(text, '\n').map_values(|line: Seq<char>| parse_class(line))
}

/// The position of the class of a given name in a table, or -1.
pub open spec fn position(t: Seq<ClassSpec>, name: Seq<char>) -> int
    decreases t.len(),
{
    if t.len() == 0 {
        -1
    } else if t.last().name == name {
        t.len() - 1
    } else {
        position(t.drop_last(), name)
    }
}

/// The table after registering a class.
pub open spec fn register(t: Seq<ClassSpec>, c: ClassSpec) -> Seq<ClassSpec> {
    let i = position(t, c.name);
    if i < 0 { t.push(c) } else { t.update(i, c) }
}

/// The table after registering classes in order.
pub open spec fn register_all(t: Seq<ClassSpec>, cs: Seq<ClassSpec>) -> Seq<ClassSpec>
    decreases cs.len(),
{
    if cs.len() == 0 {
        t
    } else {
        register(register_all(t, cs.drop_last()), cs.last())
    }
}

/// The class of a given name.
pub open spec fn class_named(t: Seq<ClassSpec>, name: Seq<char>) -> Option<ClassSpec> {
    let i = position(t, name);
    if i < 0 { None } else { Some(t[i]) }
}

/// The table after adding an interface to the class of a given name, if
/// there is one.
pub open spec fn add_interface(t: Seq<ClassSpec>, name: Seq<char>, iface: Seq<char>) -> Seq<ClassSpec> {
    let i = position(t, name);
    if i < 0 {
        t
    } else {
        t.update(i, ClassSpec { interfaces: t[i].interfaces.push(iface), ..t[i] })
    }
}

/// Whether `c` is `target` or reaches it through at most `fuel` superclass
/// steps within the table.
pub open spec fn extends(t: Seq<ClassSpec>, c: Seq<char>, target: Seq<char>, fuel: nat) -> bool
    decreases fuel,
{
    if c == target {
        true
    } else if fuel == 0 {
        false
    } else {
        match class_named(t, c) {
            Some(k) => match k.super_class {
                Some(s) => extends(t, s, target, (fuel - 1) as nat),
                None => false,
            },
            None => false,
        }
    }
}

/// The pairs of character sequences a vector of pairs holds.
pub open spec fn pair_views(v: Seq<(Vec<char>, Vec<char>)>) -> Seq<(Seq<char>, Seq<char>)> {
    v.map_values(|p: (Vec<char>, Vec<char>)| (p.0@, p.1@))
}

/// A class: its name, superclass, interfaces, instance fields (name and
/// descriptor), native methods (name and descriptor) and static fields.
pub struct RuntimeClass {
    pub name: Vec<char>,
    pub super_class: Option<Vec<char>>,
    pub interfaces: Vec<Vec<char>>,
    pub instance_fields: Vec<(Vec<char>, Vec<char>)>,
    pub methods: Vec<(Vec<char>, Vec<char>)>,
    pub static_fields: Vec<Field>,
}

impl View for RuntimeClass {
    type V = ClassSpec;

    open spec fn view(&self) -> ClassSpec {
        ClassSpec {
            name: self.name@,
            super_class: match self.super_class {
                Some(s) => Some(s@),
                None => None,
            },
            interfaces: views(self.interfaces@),
            instance_fields: pair_views(self.instance_fields@),
            methods: pair_views(self.methods@),
            static_fields: fields_view(self.static_fields@),
        }
    }
}

/// The classes the interpreter knows, in the order they were first
/// registered.
pub struct ClassTable {
    pub classes: Vec<RuntimeClass>,
}

impl View for ClassTable {
    type V = Seq<ClassSpec>;

    open spec fn view(&self) -> Seq<ClassSpec> {
        self.classes@.map_values(|c: RuntimeClass| c@)
    }
}

fn last_of_in(s: &Vec<char>, c: char, end: usize) -> (j: Option<usize>)
    requires
        end <= s@.len(),
    ensures
        match j {
            Some(j) => last_of(s@.subrange(0, end as int), c) == j as int,
            None => last_of(s@.subrange(0, end as int), c) == -1,
        },
{
    let mut i = end;
    while i > 0
        invariant
            i <= end <= s@.len(),
            last_of(s@.subrange(0, end as int), c) == last_of(s@.subrange(0, i as int), c),
        decreases i,
    {
        assert(s@.subrange(0, i as int).drop_last() =~= s@.subrange(0, i - 1));
        if s[i - 1] == c {
            return Some(i - 1);
        }
        i = i - 1;
    }
    None
}

/// The pieces of `s[..end]` between the occurrences of `c`.
fn pieces_in(s: &Vec<char>, c: char, end: usize) -> (res: Vec<Vec<char>>)
    requires
        end <= s@.len(),
    ensures
        views(res@) == pieces(s@.subrange(0, end as int), c),
    decreases end,
{
    proof {
        lemma_last_of(s@.subrange(0, end as int), c);
    }
    match last_of_in(s, c, end) {
        None => {
            let mut res: Vec<Vec<char>> = Vec::new();
            res.push(sub_chars(s, 0, end));
            assert(views(res@) =~= seq![s@.subrange(0, end as int)]);
            res
        },
        Some(j) => {
            assert(s@.subrange(0, end as int).subrange(0, j as int) =~= s@.subrange(0, j as int));
            assert(s@.subrange(0, end as int).subrange(j + 1, end as int) =~= s@.subrange(j + 1, end as int));
            let mut res = pieces_in(s, c, j);
            let ghost before = views(res@);
            res.push(sub_chars(s, j + 1, end));
            assert(views(res@) =~= before.push(s@.subrange(j + 1, end as int)));
            res
        },
    }
}

/// The pieces of `s` between the occurrences of `c`.
pub fn split_pieces(s: &Vec<char>, c: char) -> (res: Vec<Vec<char>>)
    ensures
        views(res@) == pieces(s@, c),
{
    assert(s@.subrange(0, s@.len() as int) =~= s@);
    pieces_in(s, c, s.len())
}

fn words_in(s: &Vec<char>) -> (res: Vec<Vec<char>>)
    ensures
        views(res@) == words(s@),
{
    if s.len() == 0 {
        let res: Vec<Vec<char>> = Vec::new();
        assert(views(res@) =~= seq![]);
        res
    } else {
        split_pieces(s, ',')
    }
}

fn first_of_in(s: &Vec<char>, c: char) -> (k: Option<usize>)
    ensures
        match k {
            Some(k) => first_of(s@, c) == k as int,
            None => first_of(s@, c) == -1,
        },
{
    proof {
        lemma_first_of(s@, c);
    }
    assert(s@.subrange(0, s@.len() as int) =~= s@);
    let mut i: usize = 0;
    while i < s.len()
        invariant
            i <= s@.len(),
            first_of(s@, c) == (if first_of(s@.subrange(i as int, s@.len() as int), c) < 0 { -1 } else { first_of(s@.subrange(i as int, s@.len() as int), c) + i }),
        decreases s@.len() - i,
    {
        assert(s@.subrange(i as int, s@.len() as int).drop_first() =~= s@.subrange(i + 1, s@.len() as int));
        if s[i] == c {
            return Some(i);
        }
        i = i + 1;
    }
    None
}

fn split_word(w: &Vec<char>, c: char, skip: bool) -> (res: (Vec<char>, Vec<char>))
    ensures
        (res.0@, res.1@) == (if first_of(w@, c) < 0 { (w@, seq![]) } else if skip {
            (w@.subrange(0, first_of(w@, c)), w@.subrange(first_of(w@, c) + 1, w@.len() as int))
        } else {
            (w@.subrange(0, first_of(w@, c)), w@.subrange(first_of(w@, c), w@.len() as int))
        }),
{
    proof {
        lemma_first_of(w@, c);
    }
    match first_of_in(w, c) {
        None => (crate::helpers::copy_chars(w), Vec::new()),
        Some(k) => {
            assert(k < w@.len());
            let n = w.len();
            let from = if skip { k + 1 } else { k };
            (sub_chars(w, 0, k), sub_chars(w, from, w.len()))
        },
    }
}

fn pairs_of(ws: &Vec<Vec<char>>, c: char, skip: bool) -> (res: Vec<(Vec<char>, Vec<char>)>)
    requires
        c == ':' ==> skip,
        c == '(' ==> !skip,
    ensures
        c == ':' ==> pair_views(res@) == views(ws@).map_values(|w: Seq<char>| field_of(w)),
        c == '(' ==> pair_views(res@) == views(ws@).map_values(|w: Seq<char>| method_of(w)),
{
    let mut res: Vec<(Vec<char>, Vec<char>)> = Vec::new();
    let mut i: usize = 0;
    while i < ws.len()
        invariant
            i <= ws@.len(),
            c == ':' ==> skip,
            c == '(' ==> !skip,
            c == ':' ==> pair_views(res@) == views(ws@).subrange(0, i as int).map_values(|w: Seq<char>| field_of(w)),
            c == '(' ==> pair_views(res@) == views(ws@).subrange(0, i as int).map_values(|w: Seq<char>| method_of(w)),
        decreases ws@.len() - i,
    {
        let ghost before = pair_views(res@);
        let p = split_word(&ws[i], c, skip);
        res.push(p);
        proof {
            assert(views(ws@)[i as int] == ws@[i as int]@);
            assert(pair_views(res@) =~= before.push((p.0@, p.1@)));
            assert(views(ws@).subrange(0, i + 1) =~= views(ws@).subrange(0, i as int).push(ws@[i as int]@));
            if c == ':' {
                assert(views(ws@).subrange(0, i + 1).map_values(|w: Seq<char>| field_of(w)) =~= views(ws@).subrange(0, i as int).map_values(|w: Seq<char>| field_of(w)).push(field_of(ws@[i as int]@)));
            }
            if c == '(' {
                assert(views(ws@).subrange(0, i + 1).map_values(|w: Seq<char>| method_of(w)) =~= views(ws@).subrange(0, i as int).map_values(|w: Seq<char>| method_of(w)).push(method_of(ws@[i as int]@)));
            }
        }
        i = i + 1;
    }
    assert(views(ws@).subrange(0, i as int) =~= views(ws@));
    res
}

fn section_of(secs: &Vec<Vec<char>>, i: usize) -> (res: Vec<char>)
    ensures
        res@ == section(views(secs@), i as int),
{
    if i < secs.len() { crate::helpers::copy_chars(&secs[i]) } else { Vec::new() }
}

/// The class a line describes.
pub fn parse_class_line(line: &Vec<char>) -> (c: RuntimeClass)
    ensures
        c@ == parse_class(line@),
{
    let secs = split_pieces(line, '|');
    let head = words_in(&section_of(&secs, 0));
    let name = if head.len() > 0 { crate::helpers::copy_chars(&head[0]) } else { Vec::new() };
    let super_class = if head.len() > 1 { Some(crate::helpers::copy_chars(&head[1])) } else { None };
    let interfaces = words_in(&section_of(&secs, 1));
    let instance_fields = pairs_of(&words_in(&section_of(&secs, 2)), ':', true);
    let methods = pairs_of(&words_in(&section_of(&secs, 3)), '(', false);
    let static_fields: Vec<Field> = Vec::new();
    let c = RuntimeClass { name, super_class, interfaces, instance_fields, methods, static_fields };
    proof {
        assert(fields_view(c.static_fields@) =~= seq![]);
        assert(views(head@).len() > 0 ==> views(head@)[0] == head@[0]@);
        assert(views(head@).len() > 1 ==> views(head@)[1] == head@[1]@);
        assert(c@ =~= parse_class(line@));
    }
    c
}

impl ClassTable {
    /// An empty table.
    pub fn new() -> (t: ClassTable)
        ensures
            t@ == Seq::<ClassSpec>::empty(),
    {
        let t = ClassTable { classes: Vec::new() };
        assert(t@ =~= Seq::<ClassSpec>::empty());
        t
    }

    /// The position of the class of a given name.
    pub fn position_of(&self, name: &Vec<char>) -> (res: Option<usize>)
        ensures
            match res {
                Some(i) => position(self@, name@) == i as int && i < self@.len(),
                None => position(self@, name@) == -1,
            },
    {
        let mut i = self.classes.len();
        assert(self@.subrange(0, i as int) =~= self@);
        while i > 0
            invariant
                i <= self@.len(),
                self@.len() == self.classes@.len(),
                position(self@, name@) == position(self@.subrange(0, i as int), name@),
            decreases i,
        {
            proof {
                assert(self@.subrange(0, i as int).drop_last() =~= self@.subrange(0, i - 1));
                assert(self@.subrange(0, i as int).last() == self.classes@[i - 1]@);
            }
            if crate::chars::eq_chars(&self.classes[i - 1].name, name) {
                return Some(i - 1);
            }
            i = i - 1;
        }
        None
    }

    /// Registers a class, replacing the class of the same name.
    pub fn register_class(&mut self, c: RuntimeClass)
        ensures
            final(self)@ == register(old(self)@, c@),
    {
        let ghost cv = c@;
        match self.position_of(&c.name) {
            Some(i) => {
                self.classes.set(i, c);
                assert(self@ =~= old(self)@.update(i as int, cv));
            },
            None => {
                self.classes.push(c);
                assert(self@ =~= old(self)@.push(cv));
            },
        }
    }

    /// Registers the classes a text describes, one per line, in order.
    pub fn register_text(&mut self, text: &str)
        ensures
            final(self)@ == register_all(old(self)@, parse_classes(text@)),
    {
        let t = crate::chars::lit(text);
        let lines = split_pieces(&t, '\n');
        let ghost cs = parse_classes(text@);
        let mut i: usize = 0;
        while i < lines.len()
            invariant
                i <= lines@.len(),
                cs == views(lines@).map_values(|line: Seq<char>| parse_class(line)),
                self@ == register_all(old(self)@, cs.subrange(0, i as int)),
            decreases lines@.len() - i,
        {
            let c = parse_class_line(&lines[i]);
            proof {
                assert(cs.subrange(0, i + 1).drop_last() =~= cs.subrange(0, i as int));
                assert(cs[i as int] == parse_class(lines@[i as int]@));
            }
            self.register_class(c);
            i = i + 1;
        }
        assert(cs.subrange(0, i as int) =~= cs);
    }

    /// Adds an interface to the class of a given name, if there is one.
    pub fn add_interface(&mut self, name: &str, iface: &str)
        ensures
            final(self)@ == add_interface(old(self)@, name@, iface@),
    {
        let n = crate::chars::lit(name);
        match self.position_of(&n) {
            Some(i) => {
                let mut c = self.classes.remove(i);
                let ghost before = c@;
                c.interfaces.push(crate::chars::lit(iface));
                assert(views(c.interfaces@) =~= before.interfaces.push(iface@));
                self.classes.insert(i, c);
                assert(self@ =~= add_interface(old(self)@, name@, iface@));
            },
            None => {},
        }
    }

    /// The superclass of the class of a given name, when it is registered
    /// and has one.
    pub fn super_of(&self, name: &Vec<char>) -> (res: Option<Vec<char>>)
        ensures
            match res {
                Some(s) => class_named(self@, name@) matches Some(k) && k.super_class == Some(s@),
                None => class_named(self@, name@) matches Some(k) ==> k.super_class is None,
            },
    {
        match self.position_of(name) {
            Some(i) => match &self.classes[i].super_class {
                Some(s) => Some(crate::helpers::copy_chars(s)),
                None => None,
            },
            None => None,
        }
    }
}

/// Whether a class is `target` or reaches it through its superclasses,
/// within as many steps as the table has classes.
pub fn is_instance_of(t: &ClassTable, class_name: &Vec<char>, target: &Vec<char>) -> (res: bool)
    ensures
        res == extends(t@, class_name@, target@, t@.len()),
{
    let mut c = crate::helpers::copy_chars(class_name);
    let mut fuel = t.classes.len();
    while fuel > 0
        invariant
            fuel <= t@.len(),
            extends(t@, class_name@, target@, t@.len()) == extends(t@, c@, target@, fuel as nat),
        decreases fuel,
    {
        if crate::chars::eq_chars(&c, target) {
            return true;
        }
        match t.super_of(&c) {
            Some(s) => {
                c = s;
            },
            None => {
                return false;
            },
        }
        fuel = fuel - 1;
    }
    crate::chars::eq_chars(&c, target)
}

/// Whether a class is `java.lang.Throwable` or one of its subclasses.
pub fn is_throwable_class(t: &ClassTable, class_name: &Vec<char>) -> (res: bool)
    ensures
        res == extends(t@, class_name@, "java/lang/Throwable"@, t@.len()),
{
    is_instance_of(t, class_name, &crate::chars::lit("java/lang/Throwable"))
}

/// Looking a name up depends on the names in the table alone.
proof fn lemma_position_same_names(t1: Seq<ClassSpec>, t2: Seq<ClassSpec>, name: Seq<char>)
    requires
        t1.len() == t2.len(),
        forall|i: int| 0 <= i < t1.len() ==> t1[i].name == t2[i].name,
    ensures
        position(t1, name) == position(t2, name),
    decreases t1.len(),
{
    if t1.len() > 0 {
        lemma_position_same_names(t1.drop_last(), t2.drop_last(), name);
    }
}

/// Where a name is found, the class there has it.
proof fn lemma_position(t: Seq<ClassSpec>, name: Seq<char>)
    ensures
        -1 <= position(t, name) < t.len(),
        position(t, name) >= 0 ==> t[position(t, name)].name == name,
        position(t, name) < 0 ==> forall|i: int| 0 <= i < t.len() ==> t[i].name != name,
    decreases t.len(),
{
    if t.len() > 0 {
        lemma_position(t.drop_last(), name);
        if position(t, name) < 0 {
            assert forall|i: int| 0 <= i < t.len() implies t[i].name != name by {
                if i < t.len() - 1 {
                    assert(t[i] == t.drop_last()[i]);
                }
            }
        }
    }
}

/// A class just registered is the one found under its name.
pub proof fn law_register_then_find(t: Seq<ClassSpec>, c: ClassSpec)
    ensures
        class_named(register(t, c), c.name) == Some(c),
{
    lemma_position(t, c.name);
    let i = position(t, c.name);
    if i < 0 {
        lemma_position(t.push(c), c.name);
        assert(t.push(c).drop_last() =~= t);
    } else {
        lemma_position_same_names(t.update(i, c), t, c.name);
    }
}

/// Registering a class leaves what is found under every other name as it
/// was.
pub proof fn law_register_keeps_others(t: Seq<ClassSpec>, c: ClassSpec, name: Seq<char>)
    requires
        name != c.name,
    ensures
        class_named(register(t, c), name) == class_named(t, name),
{
    lemma_position(t, c.name);
    lemma_position(t, name);
    let i = position(t, c.name);
    if i < 0 {
        assert(t.push(c).drop_last() =~= t);
        let j = position(t, name);
        if j >= 0 {
            assert(t.push(c)[j] == t[j]);
        }
    } else {
        lemma_position_same_names(t.update(i, c), t, name);
    }
}

/// Registering a group of classes leaves what is found under every name
/// outside the group as it was.
pub proof fn law_register_all_keeps_others(t: Seq<ClassSpec>, cs: Seq<ClassSpec>, name: Seq<char>)
    requires
        forall|i: int| 0 <= i < cs.len() ==> cs[i].name != name,
    ensures
        class_named(register_all(t, cs), name) == class_named(t, name),
    decreases cs.len(),
{
    if cs.len() > 0 {
        law_register_all_keeps_others(t, cs.drop_last(), name);
        law_register_keeps_others(register_all(t, cs.drop_last()), cs.last(), name);
    }
}

/// A static field of a registered class: the field's value, or a
/// `FieldNotFound` error naming the class and the field when either is
/// missing.
pub open spec fn static_field(t: Seq<ClassSpec>, class_name: Seq<char>, name: Seq<char>) -> Result<Value, crate::model::Fault> {
    match class_named(t, class_name) {
        Some(c) => match crate::model::field_get(c.static_fields, name) {
            Some(v) => Ok(v),
            None => Err(crate::model::Fault::FieldMissing(class_name, name)),
        },
        None => Err(crate::model::Fault::FieldMissing(class_name, name)),
    }
}

/// Reads a static field of a registered class.
pub fn get_static_field(t: &ClassTable, class_name: &Vec<char>, name: &str) -> (res: Result<Value, crate::model::VmError>)
    ensures
        crate::handles::yields(res, static_field(t@, class_name@, name@)),
{
    let missing = crate::model::VmError::FieldNotFound {
        class_name: crate::helpers::copy_chars(class_name),
        field_name: crate::chars::lit(name),
    };
    match t.position_of(class_name) {
        Some(i) => {
            proof {
                assert(t@[i as int] == t.classes@[i as int]@);
            }
            match crate::heap::field_lookup(&t.classes[i].static_fields, name) {
                Some(v) => Ok(v),
                None => Err(missing),
            }
        },
        None => Err(missing),
    }
}

} // verus!
