# oz

The verified core of the SWIFT orchestrator, which builds an Open vSwitch
test network, deploys a free5GC 5G core and UERANSIM in containers on it,
connects the containers with ONOS host intents, and answers Rasa action
requests.

- `src/` is the library, proved with Verus: the command lines for `ip`,
  `ovs-vsctl` and `sh` (`commands`), the bridge topology and its teardown
  (`topology`), the container configurations (`containers`), the deployment
  tables (`deployment`), the options of each container the demo starts
  (`options`), the host-intent plans (`intents`), the Rasa endpoint
  decisions (`rasa`), the web-console subscriber requests (`subscriber`),
  MAC addresses (`mac`) and text helpers (`text`).
- `app/` is the program around it: command-line options, running the
  commands on the host, Docker, HTTP.
- `tests/` runs the library on concrete values.
