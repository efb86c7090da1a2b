use vstd::prelude::*;

verus! {

/// The nine logical inputs of the emulated console.
#[derive(Clone, Copy, Debug, PartialEq, Eq, Structural)]
pub enum Input {
    Up,
    Down,
    Left,
    Right,
    Outside,
    Inside,
    Option1,
    Option2,
    Pause,
}

/// First binding of `key` in the mapping, scanning from the front.
pub open spec fn mapping_lookup(m: Seq<(u32, Input)>, key: u32) -> Option<Input>
    decreases m.len(),
{
    if m.len() == 0 {
        Option::None
    } else if m[0].0 == key {
        Option::Some(m[0].1)
    } else {
        mapping_lookup(m.drop_first(), key)
    }
}

/// No two entries bind the same key.
pub open spec fn mapping_keys_unique(m: Seq<(u32, Input)>) -> bool {
    forall|i: int, j: int| 0 <= i < j < m.len() ==> m[i].0 != m[j].0
}

/// Immutable-after-construction description of one run: image paths, video
/// and audio flags, the serial-bridge capability, and the key bindings.
/// Host key codes are carried as plain numeric codes; translating the host
/// windowing layer's key type to a code is the caller's concern.
#[derive(Clone, Debug)]
pub struct RunnerConfig {
    rom: Option<String>,
    cartridge: Option<String>,
    button_mapping: Vec<(u32, Input)>,
    linear_filter: bool,
    mute: bool,
    comlynx: bool,
    comlynx_port: u16,
}

impl RunnerConfig {
    pub closed spec fn spec_rom(self) -> Option<String> {
        self.rom
    }

    pub closed spec fn spec_cartridge(self) -> Option<String> {
        self.cartridge
    }

    pub closed spec fn spec_button_mapping(self) -> Seq<(u32, Input)> {
        self.button_mapping@
    }

    pub closed spec fn spec_linear_filter(self) -> bool {
        self.linear_filter
    }

    pub closed spec fn spec_mute(self) -> bool {
        self.mute
    }

    pub closed spec fn spec_comlynx(self) -> bool {
        self.comlynx
    }

    pub closed spec fn spec_comlynx_port(self) -> u16 {
        self.comlynx_port
    }

    pub open spec fn wf(self) -> bool {
        mapping_keys_unique(self.spec_button_mapping())
    }

    pub fn new() -> (c: Self)
        ensures
            c.wf(),
            c.spec_rom() is None,
            c.spec_cartridge() is None,
            c.spec_button_mapping() == Seq::<(u32, Input)>::empty(),
            !c.spec_linear_filter(),
            !c.spec_mute(),
            !c.spec_comlynx(),
            c.spec_comlynx_port() == 0,
    {
        RunnerConfig {
            rom: Option::None,
            cartridge: Option::None,
            button_mapping: Vec::new(),
            linear_filter: false,
            mute: false,
            comlynx: false,
            comlynx_port: 0,
        }
    }

    pub fn rom(&self) -> (r: &Option<String>)
        ensures
            *r == self.spec_rom(),
    {
        &self.rom
    }

    pub fn set_rom(&mut self, rom: String)
        ensures
            final(self).spec_rom() == Option::Some(rom),
            final(self).spec_cartridge() == old(self).spec_cartridge(),
            final(self).spec_button_mapping() == old(self).spec_button_mapping(),
            final(self).spec_linear_filter() == old(self).spec_linear_filter(),
            final(self).spec_mute() == old(self).spec_mute(),
            final(self).spec_comlynx() == old(self).spec_comlynx(),
            final(self).spec_comlynx_port() == old(self).spec_comlynx_port(),
            final(self).wf() == old(self).wf(),
    {
        self.rom = Option::Some(rom);
    }

    pub fn cartridge(&self) -> (r: &Option<String>)
        ensures
            *r == self.spec_cartridge(),
    {
        &self.cartridge
    }

    pub fn set_cartridge(&mut self, cartridge: String)
        ensures
            final(self).spec_cartridge() == Option::Some(cartridge),
            final(self).spec_rom() == old(self).spec_rom(),
            final(self).spec_button_mapping() == old(self).spec_button_mapping(),
            final(self).spec_linear_filter() == old(self).spec_linear_filter(),
            final(self).spec_mute() == old(self).spec_mute(),
            final(self).spec_comlynx() == old(self).spec_comlynx(),
            final(self).spec_comlynx_port() == old(self).spec_comlynx_port(),
            final(self).wf() == old(self).wf(),
    {
        self.cartridge = Option::Some(cartridge);
    }

    pub fn button_mapping(&self) -> (r: &Vec<(u32, Input)>)
        ensures
            r@ == self.spec_button_mapping(),
    {
        &self.button_mapping
    }

    /// Bind `key` to `btn`: replace the existing binding of `key`, or add a
    /// fresh one when `key` is not yet bound.
    pub fn set_button_mapping(&mut self, key: u32, btn: Input)
        requires
            old(self).wf(),
        ensures
            final(self).wf(),
            mapping_lookup(final(self).spec_button_mapping(), key) == Option::Some(btn),
            forall|k: u32|
                k != key ==> mapping_lookup(final(self).spec_button_mapping(), k)
                    == mapping_lookup(old(self).spec_button_mapping(), k),
            final(self).spec_rom() == old(self).spec_rom(),
            final(self).spec_cartridge() == old(self).spec_cartridge(),
            final(self).spec_linear_filter() == old(self).spec_linear_filter(),
            final(self).spec_mute() == old(self).spec_mute(),
            final(self).spec_comlynx() == old(self).spec_comlynx(),
            final(self).spec_comlynx_port() == old(self).spec_comlynx_port(),
    {
        let ghost m0 = self.button_mapping@;
        let n = self.button_mapping.len();
        let mut i: usize = 0;
        while i < n && self.button_mapping[i].0 != key
            invariant
                n == self.button_mapping.len(),
                i <= n,
                self.button_mapping@ == m0,
                forall|j: int| 0 <= j < i ==> m0[j].0 != key,
            decreases n - i,
        {
            i = i + 1;
        }
        if i < n {
            self.button_mapping.set(i, (key, btn));
            proof {
                lemma_lookup_after_update(m0, i as int, key, btn);
            }
        } else {
            self.button_mapping.push((key, btn));
            proof {
                lemma_lookup_absent(m0, key);
                lemma_lookup_after_push(m0, key, btn);
            }
        }
    }

    pub fn linear_filter(&self) -> (r: bool)
        ensures
            r == self.spec_linear_filter(),
    {
        self.linear_filter
    }

    pub fn set_linear_filter(&mut self, linear_filter: bool)
        ensures
            final(self).spec_linear_filter() == linear_filter,
            final(self).spec_rom() == old(self).spec_rom(),
            final(self).spec_cartridge() == old(self).spec_cartridge(),
            final(self).spec_button_mapping() == old(self).spec_button_mapping(),
            final(self).spec_mute() == old(self).spec_mute(),
            final(self).spec_comlynx() == old(self).spec_comlynx(),
            final(self).spec_comlynx_port() == old(self).spec_comlynx_port(),
            final(self).wf() == old(self).wf(),
    {
        self.linear_filter = linear_filter;
    }

    pub fn mute(&self) -> (r: bool)
        ensures
            r == self.spec_mute(),
    {
        self.mute
    }

    pub fn set_mute(&mut self, mute: bool)
        ensures
            final(self).spec_mute() == mute,
            final(self).spec_rom() == old(self).spec_rom(),
            final(self).spec_cartridge() == old(self).spec_cartridge(),
            final(self).spec_button_mapping() == old(self).spec_button_mapping(),
            final(self).spec_linear_filter() == old(self).spec_linear_filter(),
            final(self).spec_comlynx() == old(self).spec_comlynx(),
            final(self).spec_comlynx_port() == old(self).spec_comlynx_port(),
            final(self).wf() == old(self).wf(),
    {
        self.mute = mute;
    }

    pub fn comlynx(&self) -> (r: bool)
        ensures
            r == self.spec_comlynx(),
    {
        self.comlynx
    }

    pub fn set_comlynx(&mut self, comlynx: bool)
        ensures
            final(self).spec_comlynx() == comlynx,
            final(self).spec_rom() == old(self).spec_rom(),
            final(self).spec_cartridge() == old(self).spec_cartridge(),
            final(self).spec_button_mapping() == old(self).spec_button_mapping(),
            final(self).spec_linear_filter() == old(self).spec_linear_filter(),
            final(self).spec_mute() == old(self).spec_mute(),
            final(self).spec_comlynx_port() == old(self).spec_comlynx_port(),
            final(self).wf() == old(self).wf(),
    {
        self.comlynx = comlynx;
    }

    pub fn comlynx_port(&self) -> (r: u16)
        ensures
            r == self.spec_comlynx_port(),
    {
        self.comlynx_port
    }

    pub fn set_comlynx_port(&mut self, port: u16)
        ensures
            final(self).spec_comlynx_port() == port,
            final(self).spec_rom() == old(self).spec_rom(),
            final(self).spec_cartridge() == old(self).spec_cartridge(),
            final(self).spec_button_mapping() == old(self).spec_button_mapping(),
            final(self).spec_linear_filter() == old(self).spec_linear_filter(),
            final(self).spec_mute() == old(self).spec_mute(),
            final(self).spec_comlynx() == old(self).spec_comlynx(),
            final(self).wf() == old(self).wf(),
    {
        self.comlynx_port = port;
    }
}

/// Replacing the entry at an index that binds `key` rebinds `key` and leaves
/// every other key's binding alone.
proof fn lemma_lookup_after_update(m: Seq<(u32, Input)>, i: int, key: u32, btn: Input)
    requires
        0 <= i < m.len(),
        m[i].0 == key,
        forall|j: int| 0 <= j < i ==> m[j].0 != key,
    ensures
        mapping_lookup(m.update(i, (key, btn)), key) == Option::Some(btn),
        forall|k: u32| k != key ==> mapping_lookup(m.update(i, (key, btn)), k) == mapping_lookup(m, k),
        mapping_keys_unique(m) ==> mapping_keys_unique(m.update(i, (key, btn))),
    decreases m.len(),
{
    let m1 = m.update(i, (key, btn));
    if i == 0 {
        assert(m1[0] == (key, btn));
        assert forall|k: u32| k != key implies mapping_lookup(m1, k) == mapping_lookup(m, k) by {
            assert(m1.drop_first() =~= m.drop_first());
        }
    } else {
        lemma_lookup_after_update(m.drop_first(), i - 1, key, btn);
        assert(m1.drop_first() =~= m.drop_first().update(i - 1, (key, btn)));
        assert(m1[0] == m[0]);
        assert(mapping_lookup(m1, key) == Option::Some(btn));
        assert forall|k: u32| k != key implies mapping_lookup(m1, k) == mapping_lookup(m, k) by {
            assert(mapping_lookup(m1.drop_first(), k) == mapping_lookup(m.drop_first(), k));
        }
    }
}

/// When no entry binds `key`, the lookup comes up empty.
proof fn lemma_lookup_absent(m: Seq<(u32, Input)>, key: u32)
    requires
        forall|j: int| 0 <= j < m.len() ==> m[j].0 != key,
    ensures
        mapping_lookup(m, key) is None,
    decreases m.len(),
{
    if m.len() > 0 {
        lemma_lookup_absent(m.drop_first(), key);
    }
}

/// Appending a binding for a key that is absent makes that binding found and
/// leaves every other key's binding alone.
proof fn lemma_lookup_after_push(m: Seq<(u32, Input)>, key: u32, btn: Input)
    requires
        forall|j: int| 0 <= j < m.len() ==> m[j].0 != key,
    ensures
        mapping_lookup(m.push((key, btn)), key) == Option::Some(btn),
        forall|k: u32| k != key ==> mapping_lookup(m.push((key, btn)), k) == mapping_lookup(m, k),
        mapping_keys_unique(m) ==> mapping_keys_unique(m.push((key, btn))),
    decreases m.len(),
{
    let m1 = m.push((key, btn));
    if m.len() == 0 {
        assert(m1[0] == (key, btn));
        assert(m1.drop_first() =~= Seq::<(u32, Input)>::empty());
        assert forall|k: u32| k != key implies mapping_lookup(m1, k) == mapping_lookup(m, k) by {
            assert(mapping_lookup(m1, k) == mapping_lookup(m1.drop_first(), k));
        }
    } else {
        lemma_lookup_after_push(m.drop_first(), key, btn);
        assert(m1.drop_first() =~= m.drop_first().push((key, btn)));
        assert(m1[0] == m[0]);
        assert(mapping_lookup(m1, key) == Option::Some(btn));
        assert forall|k: u32| k != key implies mapping_lookup(m1, k) == mapping_lookup(m, k) by {
            assert(mapping_lookup(m1.drop_first(), k) == mapping_lookup(m.drop_first(), k));
        }
    }
}

} // verus!
