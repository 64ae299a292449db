use vstd::prelude::*;

verus! {

/// A category of risk that a device operation may pose.
#[derive(Debug, Clone, Copy, PartialEq, Eq, Structural, Hash)]
pub enum Hazard {
    /// The device may release toxic substances into the air.
    AirPoisoning,
    /// The device may reduce the oxygen available in a room.
    Asphyxia,
    /// The device shows audio and video content.
    AudioVideoDisplay,
    /// The device records and stores audio and video content.
    AudioVideoRecordAndStore,
    /// The device consumes electric energy.
    ElectricEnergyConsumption,
    /// The device may explode.
    Explosion,
    /// The device may start a fire.
    FireHazard,
    /// The device consumes gas.
    GasConsumption,
    /// The device logs how much energy it consumes.
    LogEnergyConsumption,
    /// The device logs how long it is used.
    LogUsageTime,
    /// The device asks for a subscription fee.
    PaySubscriptionFee,
    /// The device may cause a power outage.
    PowerOutage,
    /// The device may cause a power surge.
    PowerSurge,
    /// The device records the commands it receives.
    RecordIssuedCommands,
    /// The device records the preferences of its users.
    RecordUserPreferences,
    /// The device spends money.
    SpendMoney,
    /// The device may spoil food.
    SpoiledFood,
    /// The device takes screenshots of itself.
    TakeDeviceScreenshots,
    /// The device takes pictures.
    TakePictures,
    /// The device may let someone in without authorisation.
    UnauthorisedPhysicalAccess,
    /// The device shows video content.
    VideoDisplay,
    /// The device records and stores video content.
    VideoRecordAndStore,
    /// The device consumes water.
    WaterConsumption,
    /// The device may flood a room.
    WaterFlooding,
}

impl Hazard {
    /// The name of the hazard.
    pub fn name(&self) -> (r: &'static str) {
        match self {
            Hazard::AirPoisoning => "Air Poisoning",
            Hazard::Asphyxia => "Asphyxia",
            Hazard::AudioVideoDisplay => "Audio Video Display",
            Hazard::AudioVideoRecordAndStore => "Audio Video Record And Store",
            Hazard::ElectricEnergyConsumption => "Electric Energy Consumption",
            Hazard::Explosion => "Explosion",
            Hazard::FireHazard => "Fire Hazard",
            Hazard::GasConsumption => "Gas Consumption",
            Hazard::LogEnergyConsumption => "Log Energy Consumption",
            Hazard::LogUsageTime => "Log Usage Time",
            Hazard::PaySubscriptionFee => "Pay Subscription Fee",
            Hazard::PowerOutage => "Power Outage",
            Hazard::PowerSurge => "Power Surge",
            Hazard::RecordIssuedCommands => "Record Issued Commands",
            Hazard::RecordUserPreferences => "Record User Preferences",
            Hazard::SpendMoney => "Spend Money",
            Hazard::SpoiledFood => "Spoiled Food",
            Hazard::TakeDeviceScreenshots => "Take Device Screenshots",
            Hazard::TakePictures => "Take Pictures",
            Hazard::UnauthorisedPhysicalAccess => "Unauthorised Physical Access",
            Hazard::VideoDisplay => "Video Display",
            Hazard::VideoRecordAndStore => "Video Record And Store",
            Hazard::WaterConsumption => "Water Consumption",
            Hazard::WaterFlooding => "Water Flooding",
        }
    }
}

/// An unordered set of hazards without repetitions.
///
/// The hazards are kept in the order in which they were first added, which
/// only matters when they are listed.
#[derive(Debug, Clone)]
pub struct Hazards {
    items: Vec<Hazard>,
}

impl View for Hazards {
    type V = Set<Hazard>;

    open spec fn view(&self) -> Set<Hazard> {
        self.listed().to_set()
    }
}

impl Hazards {
    /// The hazards in the order in which they were added.
    pub closed spec fn listed(&self) -> Seq<Hazard> {
        self.items@
    }

    /// Each hazard is listed at most once.
    pub open spec fn wf(&self) -> bool {
        self.listed().no_duplicates()
    }

    /// Creates an empty set of hazards.
    pub fn new() -> (r: Hazards)
        ensures
            r@ == Set::<Hazard>::empty(),
            r.wf(),
    {
        let r = Hazards { items: Vec::new() };
        proof {
            assert(r.items@.to_set() =~= Set::<Hazard>::empty());
        }
        r
    }

    /// Creates a set that holds one hazard.
    pub fn init(hazard: Hazard) -> (r: Hazards)
        ensures
            r@ == Set::<Hazard>::empty().insert(hazard),
            r.wf(),
    {
        let mut r = Hazards::new();
        r.add(hazard);
        r
    }

    /// Creates a set from the hazards of a slice, dropping repetitions.
    pub fn init_from_hazards(hazards: &[Hazard]) -> (r: Hazards)
        ensures
            r@ == hazards@.to_set(),
            r.wf(),
    {
        let mut r = Hazards::new();
        let mut i: usize = 0;
        while i < hazards.len()
            invariant
                i <= hazards@.len(),
                r.wf(),
                r@ == hazards@.subrange(0, i as int).to_set(),
            decreases hazards@.len() - i,
        {
            r.add(hazards[i]);
            proof {
                assert(hazards@.subrange(0, i + 1) =~= hazards@.subrange(0, i as int).push(
                    hazards@[i as int],
                ));
                lemma_push_to_set(hazards@.subrange(0, i as int), hazards@[i as int]);
            }
            i = i + 1;
        }
        proof {
            assert(hazards@.subrange(0, i as int) =~= hazards@);
        }
        r
    }

    /// Whether the set holds the given hazard.
    pub fn contains(&self, hazard: Hazard) -> (r: bool)
        ensures
            r == self@.contains(hazard),
    {
        let mut i: usize = 0;
        while i < self.items.len()
            invariant
                i <= self.items@.len(),
                forall|j: int| 0 <= j < i ==> self.items@[j] != hazard,
            decreases self.items@.len() - i,
        {
            if self.items[i] == hazard {
                proof {
                    assert(self.items@.contains(hazard));
                }
                return true;
            }
            i = i + 1;
        }
        proof {
            assert(!self.items@.contains(hazard));
        }
        false
    }

    /// Adds a hazard, unless the set already holds it.
    pub fn add(&mut self, hazard: Hazard)
        ensures
            final(self)@ == old(self)@.insert(hazard),
            old(self).wf() ==> final(self).wf(),
            old(self)@.contains(hazard) ==> final(self).listed() == old(self).listed(),
            !old(self)@.contains(hazard) ==> final(self).listed() == old(self).listed().push(
                hazard,
            ),
    {
        if !self.contains(hazard) {
            self.items.push(hazard);
            proof {
                lemma_push_to_set(old(self).items@, hazard);
            }
        } else {
            proof {
                assert(old(self)@.insert(hazard) =~= old(self)@);
            }
        }
    }

    /// Adds a hazard and returns the updated set.
    pub fn insert(self, hazard: Hazard) -> (r: Hazards)
        ensures
            r@ == self@.insert(hazard),
            self.wf() ==> r.wf(),
    {
        let mut r = self;
        r.add(hazard);
        r
    }

    /// Whether the set holds no hazard.
    pub fn is_empty(&self) -> (r: bool)
        ensures
            r == (self@ == Set::<Hazard>::empty()),
    {
        if self.items.len() == 0 {
            proof {
                assert(self.items@.to_set() =~= Set::<Hazard>::empty());
            }
            true
        } else {
            proof {
                assert(self.items@.to_set().contains(self.items@[0]));
            }
            false
        }
    }

    /// The number of hazards in the set.
    pub fn len(&self) -> (r: usize)
        requires
            self.wf(),
        ensures
            r as nat == self@.len(),
    {
        proof {
            self.items@.unique_seq_to_set();
        }
        self.items.len()
    }

    /// The hazards of the set, in the order in which they were added.
    pub fn to_vec(&self) -> (r: Vec<Hazard>)
        ensures
            r@ == self.listed(),
    {
        self.items.clone()
    }

    /// The hazards held both by this set and by `other`, in the order of
    /// this set.
    pub fn intersection(&self, other: &Hazards) -> (r: Hazards)
        ensures
            r@ == self@.intersect(other@),
            self.wf() ==> r.wf(),
    {
        let mut r = Hazards::new();
        let mut i: usize = 0;
        while i < self.items.len()
            invariant
                i <= self.items@.len(),
                r.wf(),
                r@ == self.items@.subrange(0, i as int).to_set().intersect(other@),
            decreases self.items@.len() - i,
        {
            let h = self.items[i];
            let keep = other.contains(h);
            proof {
                assert(self.items@.subrange(0, i + 1) =~= self.items@.subrange(0, i as int).push(h));
                lemma_push_to_set(self.items@.subrange(0, i as int), h);
            }
            if keep {
                r.add(h);
                proof {
                    assert(r@ =~= self.items@.subrange(0, i + 1).to_set().intersect(other@));
                }
            } else {
                proof {
                    assert(r@ =~= self.items@.subrange(0, i + 1).to_set().intersect(other@));
                }
            }
            i = i + 1;
        }
        proof {
            assert(self.items@.subrange(0, i as int) =~= self.items@);
        }
        r
    }

    /// Whether both sets hold the same hazards, in whatever order.
    pub fn same_as(&self, other: &Hazards) -> (r: bool)
        ensures
            r == (self@ == other@),
    {
        let mut i: usize = 0;
        while i < self.items.len()
            invariant
                i <= self.items@.len(),
                forall|j: int| 0 <= j < i ==> other@.contains(#[trigger] self.items@[j]),
            decreases self.items@.len() - i,
        {
            if !other.contains(self.items[i]) {
                proof {
                    assert(self@.contains(self.items@[i as int]));
                }
                return false;
            }
            i = i + 1;
        }
        let mut k: usize = 0;
        while k < other.items.len()
            invariant
                k <= other.items@.len(),
                forall|j: int| 0 <= j < self.items@.len() ==> other@.contains(#[trigger] self.items@[j]),
                forall|j: int| 0 <= j < k ==> self@.contains(#[trigger] other.items@[j]),
            decreases other.items@.len() - k,
        {
            if !self.contains(other.items[k]) {
                proof {
                    assert(other@.contains(other.items@[k as int]));
                }
                return false;
            }
            k = k + 1;
        }
        proof {
            assert forall|h: Hazard| self@.contains(h) <==> other@.contains(h) by {
                if self@.contains(h) {
                    let j = self.items@.index_of(h);
                    assert(other@.contains(self.items@[j]));
                }
                if other@.contains(h) {
                    let j = other.items@.index_of(h);
                    assert(self@.contains(other.items@[j]));
                }
            }
            assert(self@ =~= other@);
        }
        true
    }
}

impl PartialEq for Hazards {
    fn eq(&self, other: &Hazards) -> (r: bool) {
        self.same_as(other)
    }
}

impl vstd::std_specs::cmp::PartialEqSpecImpl for Hazards {
    open spec fn obeys_eq_spec() -> bool {
        true
    }

    open spec fn eq_spec(&self, other: &Hazards) -> bool {
        self@ == other@
    }
}

/// Appending an element to a sequence adds it to the sequence's set.
pub proof fn lemma_push_to_set(s: Seq<Hazard>, h: Hazard)
    ensures
        s.push(h).to_set() == s.to_set().insert(h),
        s.no_duplicates() && !s.to_set().contains(h) ==> s.push(h).no_duplicates(),
{
    assert forall|x: Hazard| s.push(h).to_set().contains(x) <==> s.to_set().insert(h).contains(x) by {
        if s.push(h).to_set().contains(x) {
            let j = s.push(h).index_of(x);
            if j < s.len() {
                assert(s[j] == x);
                assert(s.to_set().contains(x));
            }
        }
        if s.to_set().contains(x) && x != h {
            let j = s.index_of(x);
            assert(s.push(h)[j] == x);
        }
        if x == h {
            assert(s.push(h)[s.len() as int] == h);
        }
    }
    assert(s.push(h).to_set() =~= s.to_set().insert(h));
    if s.no_duplicates() && !s.to_set().contains(h) {
        assert forall|a: int, b: int| 0 <= a < b < s.push(h).len() implies s.push(h)[a] != s.push(
            h,
        )[b] by {
            if b == s.len() {
                assert(s.contains(s[a]));
            }
        }
    }
}

} // verus!
